//! Result envelopes: the uniform success/failure report of one top-level
//! operation. Envelopes are consumed by the presentation layer only and never
//! drive control decisions inside the orchestrator.

use vstd::prelude::*;
use vstd::string::StringExecFns;

verus! {

/// What one top-level operation reports back: text for both streams and the
/// process return code.
#[derive(Debug, Clone, PartialEq, Eq)]
pub struct ResultEnvelope {
    /// Text for the standard output stream.
    pub stdout: String,
    /// Text for the standard error stream.
    pub stderr: String,
    /// Process return code: 0 on success, nonzero on any reported error.
    pub return_code: i32,
}

/// Message reported when an EDF file validated.
pub open spec fn valid_edf_message(filepath: Seq<char>) -> Seq<char> {
    filepath + " is a valid EDF file"@
}

/// Message reported when an EDF file failed validation.
pub open spec fn invalid_edf_message(filepath: Seq<char>) -> Seq<char> {
    filepath + " is an INVALID EDF file"@
}

/// Build the report of `validate` from the validation outcome: on success a
/// confirmation on stdout and code 0; on a validation error the refusal on
/// stdout, the validation message on stderr, and code 1.
pub fn validate_report(filepath: &String, error: &Option<String>) -> (r: ResultEnvelope)
    ensures
        error is None ==> r.stdout@ == valid_edf_message(filepath@) && r.stderr@ == Seq::<
            char,
        >::empty() && r.return_code == 0,
        error matches Some(e) ==> r.stdout@ == invalid_edf_message(filepath@) && r.stderr@ == e@
            && r.return_code == 1,
{
    match error {
        None => ResultEnvelope {
            stdout: filepath.clone().concat(" is a valid EDF file"),
            stderr: String::new(),
            return_code: 0,
        },
        Some(e) => ResultEnvelope {
            stdout: filepath.clone().concat(" is an INVALID EDF file"),
            stderr: e.clone(),
            return_code: 1,
        },
    }
}

/// Build the report of `render` from the renderer's outcome: on success the
/// rendered text on stdout and code 0; on a validation error an empty stdout,
/// the renderer's message on stderr, and code 1.
pub fn render_report(rendered: &Result<String, String>) -> (r: ResultEnvelope)
    ensures
        rendered matches Ok(text) ==> r.stdout@ == text@ && r.stderr@ == Seq::<char>::empty()
            && r.return_code == 0,
        rendered matches Err(e) ==> r.stdout@ == Seq::<char>::empty() && r.stderr@ == e@
            && r.return_code == 1,
{
    match rendered {
        Ok(text) => ResultEnvelope {
            stdout: text.clone(),
            stderr: String::new(),
            return_code: 0,
        },
        Err(e) => ResultEnvelope { stdout: String::new(), stderr: e.clone(), return_code: 1 },
    }
}

} // verus!
