//! Decoding of the engine's reported default graph root. The engine answers a
//! metadata query with raw bytes; they are trimmed of surrounding whitespace
//! and must decode as UTF-8 text. Anything else is a configuration error that
//! aborts the operation before any store is touched.

use vstd::prelude::*;
use vstd::utf8::decode_utf8;
use vstd::utf8::valid_utf8;

verus! {

/// Why the engine's reported graph root could not be decoded.
#[derive(Clone, Copy, PartialEq, Eq, Debug)]
pub enum DecodeError {
    /// The engine's answer is not valid UTF-8 text.
    NotText,
}

/// ASCII whitespace, as the engine pads its answer with: space, tab, line
/// feed, vertical tab, form feed, carriage return.
pub open spec fn is_space(b: u8) -> bool {
    b == 32 || b == 9 || b == 10 || b == 11 || b == 12 || b == 13
}

/// `s` without its leading whitespace bytes.
pub open spec fn trim_front(s: Seq<u8>) -> Seq<u8>
    decreases s.len(),
{
    if s.len() > 0 && is_space(s[0]) {
        trim_front(s.drop_first())
    } else {
        s
    }
}

/// `s` without its trailing whitespace bytes.
pub open spec fn trim_back(s: Seq<u8>) -> Seq<u8>
    decreases s.len(),
{
    if s.len() > 0 && is_space(s[s.len() - 1]) {
        trim_back(s.drop_last())
    } else {
        s
    }
}

/// `s` without its surrounding whitespace bytes.
pub open spec fn trimmed(s: Seq<u8>) -> Seq<u8> {
    trim_back(trim_front(s))
}

/// Exact test for a whitespace byte.
fn is_space_byte(b: u8) -> (r: bool)
    ensures
        r == is_space(b),
{
    b == 32 || b == 9 || b == 10 || b == 11 || b == 12 || b == 13
}

/// Strip the surrounding whitespace bytes of `raw`.
fn trim_bytes(raw: &Vec<u8>) -> (out: Vec<u8>)
    ensures
        out@ == trimmed(raw@),
{
    let len = raw.len();
    let mut lo: usize = 0;
    proof {
        assert(raw@.subrange(0, len as int) =~= raw@);
    }
    while lo < len && is_space_byte(raw[lo])
        invariant
            len == raw@.len(),
            lo <= len,
            trim_front(raw@) == trim_front(raw@.subrange(lo as int, len as int)),
        decreases len - lo,
    {
        proof {
            let s = raw@.subrange(lo as int, len as int);
            assert(s[0] == raw@[lo as int]);
            assert(s.drop_first() =~= raw@.subrange(lo as int + 1, len as int));
        }
        lo = lo + 1;
    }
    proof {
        let s = raw@.subrange(lo as int, len as int);
        if lo < len {
            assert(s[0] == raw@[lo as int]);
        }
        assert(trim_front(raw@) == s);
    }
    let mut hi: usize = len;
    while hi > lo && is_space_byte(raw[hi - 1])
        invariant
            len == raw@.len(),
            lo <= hi <= len,
            trim_front(raw@) == raw@.subrange(lo as int, len as int),
            trim_back(raw@.subrange(lo as int, len as int)) == trim_back(
                raw@.subrange(lo as int, hi as int),
            ),
        decreases hi,
    {
        proof {
            let s = raw@.subrange(lo as int, hi as int);
            assert(s[s.len() - 1] == raw@[hi - 1]);
            assert(s.drop_last() =~= raw@.subrange(lo as int, hi as int - 1));
        }
        hi = hi - 1;
    }
    proof {
        let s = raw@.subrange(lo as int, hi as int);
        if hi > lo {
            assert(s[s.len() - 1] == raw@[hi - 1]);
        }
        assert(trimmed(raw@) == s);
    }
    let mut out: Vec<u8> = Vec::new();
    let mut i: usize = lo;
    while i < hi
        invariant
            lo <= i <= hi <= raw@.len(),
            out@ == raw@.subrange(lo as int, i as int),
        decreases hi - i,
    {
        out.push(raw[i]);
        proof {
            assert(out@ =~= raw@.subrange(lo as int, i as int + 1));
        }
        i = i + 1;
    }
    proof {
        assert(out@ == trimmed(raw@));
    }
    out
}

/// Relies on std::str::from_utf8: returns the decoded characters exactly when
/// the bytes are valid UTF-8, and nothing otherwise.
#[verifier::external_body]
fn utf8_to_string(bytes: &Vec<u8>) -> (r: Option<String>)
    ensures
        r matches Some(s) ==> valid_utf8(bytes@) && s@ == decode_utf8(bytes@),
        r is None ==> !valid_utf8(bytes@),
{
    match std::str::from_utf8(bytes.as_slice()) {
        Ok(s) => Some(s.to_string()),
        Err(_) => None,
    }
}

/// Decode the engine's raw answer to the default-graph-root query: trim the
/// surrounding whitespace, then insist on UTF-8 text. Returns the decoded
/// path exactly when the trimmed bytes are valid UTF-8.
pub fn parse_graphroot(raw: &Vec<u8>) -> (r: Result<String, DecodeError>)
    ensures
        r is Ok <==> valid_utf8(trimmed(raw@)),
        r matches Ok(s) ==> s@ == decode_utf8(trimmed(raw@)),
        r matches Err(e) ==> e == DecodeError::NotText,
{
    let t = trim_bytes(raw);
    match utf8_to_string(&t) {
        Some(s) => Ok(s),
        None => Err(DecodeError::NotText),
    }
}

} // verus!
