//! The provisioning and execution pipeline of `run`, as a state machine. The
//! orchestrator never performs engine or store work itself: each state names
//! the one action it waits for, the driver's outcome comes back as an event,
//! and `step` decides the next state. Sequencing, the idempotent fast path,
//! and the fatal-on-inconsistency policy are all decided here.

use vstd::prelude::*;
use vstd::string::StringExecFns;

verus! {

/// Which of the four derived storage contexts an action runs under.
#[derive(Clone, Copy, PartialEq, Eq, Debug)]
pub enum ContextKind {
    /// The engine-native context, used for pulls.
    EngineDefault,
    /// The migration context: engine graph root plus the read-only store.
    Migrate,
    /// The probe context pointing straight at the deduplicated store.
    ReadOnly,
    /// The execution context with ephemeral roots and the mount helper.
    Run,
}

/// One engine or store operation the orchestrator asks its driver to perform.
#[derive(Clone, Copy, PartialEq, Eq, Debug)]
pub enum EngineAction {
    /// Ask whether the image is present under the given context.
    Probe { context: ContextKind },
    /// Pull the image under the given context.
    Pull { context: ContextKind },
    /// Migrate the image into the deduplicated store under the given context.
    Migrate { context: ContextKind },
    /// Launch the container under the given context.
    Launch { context: ContextKind },
}

/// Why a `run` invocation failed before or at launch.
#[derive(Clone, Copy, PartialEq, Eq, Debug)]
pub enum RunError {
    /// The engine could not pull the image.
    PullFailed,
    /// The store driver could not migrate the image.
    MigrateFailed,
    /// The image was migrated but the re-probe did not see it: the store and
    /// the engine are desynchronized, which no retry can mend.
    StoreInconsistent,
    /// The engine process could not be started or its exit code could not be
    /// determined.
    LaunchFailed,
}

/// The states of one `run` invocation. Each non-terminal state waits for
/// exactly one driver action.
#[derive(Clone, Copy, PartialEq, Eq, Debug)]
pub enum RunState {
    /// Contexts are ready; the first existence probe is pending.
    ProbeNeeded,
    /// The image is absent; a pull under the default context is pending.
    PullNeeded,
    /// The image is pulled; migration into the deduplicated store is pending.
    MigrateNeeded,
    /// Migration succeeded; the confirming re-probe is pending.
    VerifyNeeded,
    /// The image is available; the launch is pending.
    LaunchReady,
    /// The container ran; its exit code is the invocation's result.
    Done { exit_code: i32 },
    /// The invocation failed before or at launch.
    Failed { error: RunError },
}

/// What the driver observed for the action a state was waiting for.
#[derive(Clone, Copy, PartialEq, Eq, Debug)]
pub enum RunEvent {
    /// A probe answered whether the image is present.
    Probed { present: bool },
    /// A pull finished, successfully or not.
    Pulled { ok: bool },
    /// A migration finished, successfully or not.
    Migrated { ok: bool },
    /// A launch finished with the container's exit code, or the code could
    /// not be determined.
    Launched { exit_code: Option<i32> },
}

/// The one action a state waits for; terminal states wait for none.
pub open spec fn spec_action(s: RunState) -> Option<EngineAction> {
    match s {
        RunState::ProbeNeeded => Some(
            EngineAction::Probe { context: ContextKind::ReadOnly },
        ),
        RunState::PullNeeded => Some(EngineAction::Pull { context: ContextKind::EngineDefault }),
        RunState::MigrateNeeded => Some(EngineAction::Migrate { context: ContextKind::Migrate }),
        RunState::VerifyNeeded => Some(EngineAction::Probe { context: ContextKind::Run }),
        RunState::LaunchReady => Some(EngineAction::Launch { context: ContextKind::Run }),
        RunState::Done { .. } => None,
        RunState::Failed { .. } => None,
    }
}

/// The transition relation. An event that does not answer the pending action
/// changes nothing; terminal states absorb every event.
pub open spec fn spec_step(s: RunState, e: RunEvent) -> RunState {
    match s {
        RunState::ProbeNeeded => match e {
            RunEvent::Probed { present } => if present {
                RunState::LaunchReady
            } else {
                RunState::PullNeeded
            },
            _ => s,
        },
        RunState::PullNeeded => match e {
            RunEvent::Pulled { ok } => if ok {
                RunState::MigrateNeeded
            } else {
                RunState::Failed { error: RunError::PullFailed }
            },
            _ => s,
        },
        RunState::MigrateNeeded => match e {
            RunEvent::Migrated { ok } => if ok {
                RunState::VerifyNeeded
            } else {
                RunState::Failed { error: RunError::MigrateFailed }
            },
            _ => s,
        },
        RunState::VerifyNeeded => match e {
            RunEvent::Probed { present } => if present {
                RunState::LaunchReady
            } else {
                RunState::Failed { error: RunError::StoreInconsistent }
            },
            _ => s,
        },
        RunState::LaunchReady => match e {
            RunEvent::Launched { exit_code } => match exit_code {
                Some(code) => RunState::Done { exit_code: code },
                None => RunState::Failed { error: RunError::LaunchFailed },
            },
            _ => s,
        },
        RunState::Done { .. } => s,
        RunState::Failed { .. } => s,
    }
}

/// The state after the first `i` events of an invocation that started at the
/// first probe.
pub open spec fn state_at(evs: Seq<RunEvent>, i: int) -> RunState
    decreases i,
{
    if i <= 0 {
        RunState::ProbeNeeded
    } else {
        spec_step(state_at(evs, i - 1), evs[i - 1])
    }
}

/// Position of a state in the pipeline's fixed order; transitions never move
/// backwards.
pub open spec fn stage(s: RunState) -> int {
    match s {
        RunState::ProbeNeeded => 0,
        RunState::PullNeeded => 1,
        RunState::MigrateNeeded => 2,
        RunState::VerifyNeeded => 3,
        RunState::LaunchReady => 4,
        RunState::Done { .. } => 5,
        RunState::Failed { .. } => 5,
    }
}

/// One step never moves to an earlier stage.
pub proof fn lemma_stage_nondecreasing_step(s: RunState, e: RunEvent)
    ensures
        stage(s) <= stage(spec_step(s, e)),
{
}

/// Along a whole invocation the stage never decreases.
pub proof fn lemma_stage_nondecreasing(evs: Seq<RunEvent>, i: int, j: int)
    requires
        0 <= i <= j,
    ensures
        stage(state_at(evs, i)) <= stage(state_at(evs, j)),
    decreases j - i,
{
    if i < j {
        lemma_stage_nondecreasing(evs, i, j - 1);
        lemma_stage_nondecreasing_step(state_at(evs, j - 1), evs[j - 1]);
    }
}

/// Ordering law: a pull is never observed after a migrate within one
/// invocation. Once the orchestrator has been in the migrate state, it is
/// never again in the pull state.
pub proof fn lemma_no_pull_after_migrate(evs: Seq<RunEvent>, i: int, j: int)
    requires
        0 <= i <= j,
        state_at(evs, i) is MigrateNeeded,
    ensures
        !(state_at(evs, j) is PullNeeded),
{
    lemma_stage_nondecreasing(evs, i, j);
}

/// Ordering law: a migrate is never observed without a preceding successful
/// pull. Whenever the migrate state is reached, some earlier step was the
/// pull state answered by a successful pull.
pub proof fn lemma_migrate_needs_successful_pull(evs: Seq<RunEvent>, j: int)
    requires
        0 <= j,
        state_at(evs, j) is MigrateNeeded,
    ensures
        exists|k: int|
            0 <= k < j && state_at(evs, k) is PullNeeded && evs[k] == (RunEvent::Pulled {
                ok: true,
            }),
    decreases j,
{
    if j == 0 {
        assert(false);
    } else {
        let prev = state_at(evs, j - 1);
        if prev is PullNeeded && evs[j - 1] == (RunEvent::Pulled { ok: true }) {
            assert(0 <= j - 1 < j && state_at(evs, j - 1) is PullNeeded && evs[j - 1]
                == (RunEvent::Pulled { ok: true }));
        } else {
            assert(prev is MigrateNeeded);
            lemma_migrate_needs_successful_pull(evs, j - 1);
            let k = choose|k: int|
                0 <= k < j - 1 && state_at(evs, k) is PullNeeded && evs[k] == (RunEvent::Pulled {
                    ok: true,
                });
            assert(0 <= k < j && state_at(evs, k) is PullNeeded && evs[k] == (RunEvent::Pulled {
                ok: true,
            }));
        }
    }
}

/// Whether an event answers the action its state was waiting for; terminal
/// states wait for nothing.
pub open spec fn event_answers(s: RunState, e: RunEvent) -> bool {
    match s {
        RunState::ProbeNeeded => e is Probed,
        RunState::PullNeeded => e is Pulled,
        RunState::MigrateNeeded => e is Migrated,
        RunState::VerifyNeeded => e is Probed,
        RunState::LaunchReady => e is Launched,
        RunState::Done { .. } => false,
        RunState::Failed { .. } => false,
    }
}

/// An answered step moves strictly forward.
pub proof fn lemma_answered_step_strictly_forward(s: RunState, e: RunEvent)
    requires
        event_answers(s, e),
    ensures
        stage(spec_step(s, e)) > stage(s),
{
}

/// Single-visit law: as long as every observed event answers the action its
/// state was waiting for, the pipeline moves strictly forward, so no state is
/// ever revisited — in one invocation each of probe, pull, migrate, verify
/// and launch is requested at most once.
pub proof fn lemma_no_state_revisited(evs: Seq<RunEvent>, i: int, j: int)
    requires
        0 <= i < j <= evs.len(),
        forall|k: int| i <= k < j ==> event_answers(state_at(evs, k), evs[k]),
    ensures
        stage(state_at(evs, j)) > stage(state_at(evs, i)),
        state_at(evs, j) != state_at(evs, i),
    decreases j - i,
{
    if j == i + 1 {
        lemma_answered_step_strictly_forward(state_at(evs, i), evs[i]);
    } else {
        lemma_no_state_revisited(evs, i, j - 1);
        lemma_answered_step_strictly_forward(state_at(evs, j - 1), evs[j - 1]);
    }
}

/// A state in which provisioning is over for good.
pub open spec fn past_provisioning(s: RunState) -> bool {
    s is LaunchReady || s is Done || s is Failed
}

/// Once provisioning is over it stays over.
pub proof fn lemma_past_provisioning_stable(s: RunState, e: RunEvent)
    ensures
        past_provisioning(s) ==> past_provisioning(spec_step(s, e)),
{
}

/// Idempotence law: when the first probe finds the image already present,
/// the invocation never enters the pull or migrate states, so it performs
/// zero pull and zero migrate actions.
pub proof fn lemma_present_image_skips_provisioning(evs: Seq<RunEvent>, i: int)
    requires
        evs.len() >= 1,
        evs[0] == (RunEvent::Probed { present: true }),
        1 <= i,
    ensures
        past_provisioning(state_at(evs, i)),
        !(state_at(evs, i) is PullNeeded),
        !(state_at(evs, i) is MigrateNeeded),
    decreases i,
{
    if i == 1 {
        assert(state_at(evs, 0) == RunState::ProbeNeeded);
    } else {
        lemma_present_image_skips_provisioning(evs, i - 1);
        lemma_past_provisioning_stable(state_at(evs, i - 1), evs[i - 1]);
    }
}

/// Fatal verification law: if, after a migration, the confirming re-probe
/// does not see the image, the invocation terminates in the
/// store-inconsistency failure. Every later state is that same failure and no
/// action — in particular no launch — is requested again.
pub proof fn lemma_verify_failure_fatal(evs: Seq<RunEvent>, i: int, j: int)
    requires
        0 <= i < j,
        state_at(evs, i) is VerifyNeeded,
        evs[i] == (RunEvent::Probed { present: false }),
    ensures
        state_at(evs, j) == (RunState::Failed { error: RunError::StoreInconsistent }),
        spec_action(state_at(evs, j)) is None,
    decreases j,
{
    if j > i + 1 {
        lemma_verify_failure_fatal(evs, i, j - 1);
    }
}

/// Failure law: once an invocation has failed it stays in that same failure
/// for good and requests no further action — in particular, no failed step is
/// ever followed by a launch.
pub proof fn lemma_failed_is_terminal(evs: Seq<RunEvent>, i: int, j: int)
    requires
        0 <= i <= j,
        state_at(evs, i) is Failed,
    ensures
        state_at(evs, j) == state_at(evs, i),
        spec_action(state_at(evs, j)) is None,
    decreases j - i,
{
    if i < j {
        lemma_failed_is_terminal(evs, i, j - 1);
    }
}

/// The state every invocation starts in: contexts ready, first probe pending.
pub fn initial_state() -> (s: RunState)
    ensures
        s == RunState::ProbeNeeded,
{
    RunState::ProbeNeeded
}

/// The action the given state waits for, or nothing when it is terminal.
pub fn next_action(s: &RunState) -> (a: Option<EngineAction>)
    ensures
        a == spec_action(*s),
{
    match s {
        RunState::ProbeNeeded => Some(EngineAction::Probe { context: ContextKind::ReadOnly }),
        RunState::PullNeeded => Some(EngineAction::Pull { context: ContextKind::EngineDefault }),
        RunState::MigrateNeeded => Some(EngineAction::Migrate { context: ContextKind::Migrate }),
        RunState::VerifyNeeded => Some(EngineAction::Probe { context: ContextKind::Run }),
        RunState::LaunchReady => Some(EngineAction::Launch { context: ContextKind::Run }),
        RunState::Done { .. } => None,
        RunState::Failed { .. } => None,
    }
}

/// Advance the invocation by one observed event.
pub fn step(s: &RunState, e: &RunEvent) -> (next: RunState)
    ensures
        next == spec_step(*s, *e),
{
    match s {
        RunState::ProbeNeeded => match e {
            RunEvent::Probed { present } => if *present {
                RunState::LaunchReady
            } else {
                RunState::PullNeeded
            },
            _ => *s,
        },
        RunState::PullNeeded => match e {
            RunEvent::Pulled { ok } => if *ok {
                RunState::MigrateNeeded
            } else {
                RunState::Failed { error: RunError::PullFailed }
            },
            _ => *s,
        },
        RunState::MigrateNeeded => match e {
            RunEvent::Migrated { ok } => if *ok {
                RunState::VerifyNeeded
            } else {
                RunState::Failed { error: RunError::MigrateFailed }
            },
            _ => *s,
        },
        RunState::VerifyNeeded => match e {
            RunEvent::Probed { present } => if *present {
                RunState::LaunchReady
            } else {
                RunState::Failed { error: RunError::StoreInconsistent }
            },
            _ => *s,
        },
        RunState::LaunchReady => match e {
            RunEvent::Launched { exit_code } => match exit_code {
                Some(code) => RunState::Done { exit_code: *code },
                None => RunState::Failed { error: RunError::LaunchFailed },
            },
            _ => *s,
        },
        RunState::Done { .. } => *s,
        RunState::Failed { .. } => *s,
    }
}

/// Whether the invocation is over, successfully or not.
pub fn is_terminal(s: &RunState) -> (b: bool)
    ensures
        b == (s is Done || s is Failed),
{
    match s {
        RunState::Done { .. } => true,
        RunState::Failed { .. } => true,
        _ => false,
    }
}

/// The process exit code of a finished invocation: a launched container's own
/// exit code is forwarded verbatim; every orchestrator failure is 1.
pub fn exit_code(s: &RunState) -> (code: i32)
    requires
        s is Done || s is Failed,
    ensures
        *s matches RunState::Done { exit_code: c } ==> code == c,
        s is Failed ==> code == 1,
{
    match s {
        RunState::Done { exit_code: c } => *c,
        _ => 1,
    }
}

/// Transient container identity and behavior for one run; created fresh per
/// invocation, never persisted.
#[derive(Debug, Clone, PartialEq, Eq)]
pub struct LaunchConfig {
    /// Logical container name.
    pub name: String,
    /// Keep the container attached to the invoking terminal.
    pub interactive: bool,
    /// Detach from the container after starting it.
    pub detach: bool,
    /// Propagate the caller's environment into the container.
    pub set_env: bool,
    /// Where to write the container's PID, if anywhere.
    pub pidfile: Option<String>,
}

/// The launch configuration every run uses: named after the tool,
/// interactive, attached, environment-propagating, without a PID file.
pub fn default_launch_config() -> (c: LaunchConfig)
    ensures
        c.name@ == "sarusctl"@,
        c.interactive,
        !c.detach,
        c.set_env,
        c.pidfile is None,
{
    LaunchConfig {
        name: String::from_str("sarusctl"),
        interactive: true,
        detach: false,
        set_env: true,
        pidfile: None,
    }
}

} // verus!
