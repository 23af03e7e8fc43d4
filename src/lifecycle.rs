//! The life of the immediate child of the bootstrap, as a state machine.
//!
//! The caller performs each [`SpawnAction`] (create the process, wait for
//! it) and reports what happened as a [`SpawnEvent`]; the machine decides
//! what comes next. The spawned process is only an intermediary that starts
//! the real helper and exits, so a normal exit, whatever its code, is success.

use vstd::prelude::*;

use crate::error::BootstrapError;

verus! {

/// How a waited-for process changed state, as `waitpid` reports it.
#[derive(Debug, Clone, Copy, PartialEq, Eq, Structural)]
pub enum WaitOutcome {
    Exited { pid: i32, code: i32 },
    Signaled { pid: i32, signal: i32, core_dumped: bool },
    Stopped { pid: i32, signal: i32 },
    PtraceEvent { pid: i32, signal: i32, event: i32 },
    PtraceSyscall { pid: i32 },
    Continued { pid: i32 },
    StillAlive,
}

/// What happened when the caller performed the last action.
#[derive(Debug, Clone, Copy, PartialEq, Eq, Structural)]
pub enum SpawnEvent {
    /// The process was created with id `pid`.
    Spawned { pid: i32 },
    /// The process could not be created.
    SpawnRefused { errno: i32 },
    /// The wait returned how the process ended.
    Waited { status: WaitOutcome },
    /// The wait was interrupted by a signal before anything happened.
    WaitInterrupted,
    /// The wait failed for another reason.
    WaitRefused { errno: i32 },
}

/// Where the bootstrap of the helper stands.
#[derive(Debug, Clone, Copy, PartialEq, Eq, Structural)]
pub enum SpawnState {
    /// Nothing has been spawned yet.
    Created,
    /// The intermediary `pid` runs and is waited for.
    IntermediaryRunning { pid: i32 },
    /// The intermediary exited: the helper is up.
    Succeeded,
    /// The bootstrap failed.
    Failed { error: BootstrapError },
}

/// What the caller is to do next.
#[derive(Debug, Clone, Copy, PartialEq, Eq, Structural)]
pub enum SpawnAction {
    /// Create the helper process.
    Spawn,
    /// Wait, without options, for the process `pid` to terminate.
    Wait { pid: i32 },
    /// Stop: the state holds the outcome.
    Finish,
}

/// How the end of the intermediary decides the bootstrap: only the kind of
/// termination counts, never the exit code.
pub open spec fn classification(status: WaitOutcome) -> Result<(), BootstrapError> {
    match status {
        WaitOutcome::Exited { .. } => Ok(()),
        _ => Err(BootstrapError::AbnormalExit { status }),
    }
}

/// The state after `event` in state `s`. An event that does not answer the
/// action of `s` leaves it unchanged, and so does an interrupted wait.
pub open spec fn transition(s: SpawnState, event: SpawnEvent) -> SpawnState {
    match (s, event) {
        (SpawnState::Created, SpawnEvent::Spawned { pid }) => SpawnState::IntermediaryRunning { pid },
        (SpawnState::Created, SpawnEvent::SpawnRefused { errno }) => SpawnState::Failed {
            error: BootstrapError::SpawnFailed { errno },
        },
        (SpawnState::IntermediaryRunning { .. }, SpawnEvent::Waited { status }) => {
            match classification(status) {
                Ok(()) => SpawnState::Succeeded,
                Err(error) => SpawnState::Failed { error },
            }
        },
        (SpawnState::IntermediaryRunning { .. }, SpawnEvent::WaitRefused { errno }) => {
            SpawnState::Failed { error: BootstrapError::WaitFailed { errno } }
        },
        _ => s,
    }
}

/// The state after the events of `events`, in order, from `s`.
pub open spec fn run(s: SpawnState, events: Seq<SpawnEvent>) -> SpawnState
    decreases events.len(),
{
    if events.len() == 0 {
        s
    } else {
        run(transition(s, events[0]), events.drop_first())
    }
}

/// The action that state `s` asks of the caller.
pub open spec fn action_of(s: SpawnState) -> SpawnAction {
    match s {
        SpawnState::Created => SpawnAction::Spawn,
        SpawnState::IntermediaryRunning { pid } => SpawnAction::Wait { pid },
        _ => SpawnAction::Finish,
    }
}

/// Whether `s` is one of the two end states.
pub open spec fn is_finished(s: SpawnState) -> bool {
    s is Succeeded || s is Failed
}

/// `events` without its interrupted waits.
pub open spec fn without_interruptions(events: Seq<SpawnEvent>) -> Seq<SpawnEvent>
    decreases events.len(),
{
    if events.len() == 0 {
        events
    } else if events[0] is WaitInterrupted {
        without_interruptions(events.drop_first())
    } else {
        seq![events[0]] + without_interruptions(events.drop_first())
    }
}

/// Whether the intermediary's end counts as a successful bootstrap: it does
/// exactly when the process exited, whatever the exit code.
pub fn classify_exit(status: WaitOutcome) -> (r: Result<(), BootstrapError>)
    ensures
        r == classification(status),
        r is Ok <==> status is Exited,
{
    match status {
        WaitOutcome::Exited { .. } => Ok(()),
        _ => Err(BootstrapError::AbnormalExit { status }),
    }
}

impl SpawnState {
    /// The state before anything is spawned.
    pub fn new() -> (r: SpawnState)
        ensures
            r == SpawnState::Created,
    {
        SpawnState::Created
    }

    /// What the caller is to do next.
    pub fn action(&self) -> (r: SpawnAction)
        ensures
            r == action_of(*self),
    {
        match *self {
            SpawnState::Created => SpawnAction::Spawn,
            SpawnState::IntermediaryRunning { pid } => SpawnAction::Wait { pid },
            _ => SpawnAction::Finish,
        }
    }

    /// Takes in what happened when the caller performed the last action.
    pub fn step(&mut self, event: SpawnEvent)
        ensures
            *final(self) == transition(*old(self), event),
    {
        let next = match (*self, event) {
            (SpawnState::Created, SpawnEvent::Spawned { pid }) => SpawnState::IntermediaryRunning {
                pid,
            },
            (SpawnState::Created, SpawnEvent::SpawnRefused { errno }) => SpawnState::Failed {
                error: BootstrapError::SpawnFailed { errno },
            },
            (SpawnState::IntermediaryRunning { .. }, SpawnEvent::Waited { status }) => {
                match classify_exit(status) {
                    Ok(()) => SpawnState::Succeeded,
                    Err(error) => SpawnState::Failed { error },
                }
            },
            (SpawnState::IntermediaryRunning { .. }, SpawnEvent::WaitRefused { errno }) => {
                SpawnState::Failed { error: BootstrapError::WaitFailed { errno } }
            },
            (current, _) => current,
        };
        *self = next;
    }

    /// Whether the bootstrap has come to an end.
    pub fn finished(&self) -> (r: bool)
        ensures
            r == is_finished(*self),
    {
        match *self {
            SpawnState::Succeeded | SpawnState::Failed { .. } => true,
            _ => false,
        }
    }

    /// The outcome of a finished bootstrap; `None` while it goes on.
    pub fn outcome(&self) -> (r: Option<Result<(), BootstrapError>>)
        ensures
            r is None <==> !is_finished(*self),
            *self is Succeeded ==> r == Some(Ok::<(), BootstrapError>(())),
            *self matches SpawnState::Failed { error } ==> r == Some(Err::<(), BootstrapError>(error)),
    {
        match *self {
            SpawnState::Succeeded => Some(Ok(())),
            SpawnState::Failed { error } => Some(Err(error)),
            _ => None,
        }
    }
}

/// An end state stays as it is, whatever happens after it.
pub proof fn lemma_finished_states_are_final(s: SpawnState, events: Seq<SpawnEvent>)
    requires
        is_finished(s),
    ensures
        run(s, events) == s,
    decreases events.len(),
{
    if events.len() > 0 {
        lemma_finished_states_are_final(transition(s, events[0]), events.drop_first());
    }
}

/// An interrupted wait changes nothing, in any state.
pub proof fn lemma_interruption_is_ignored(s: SpawnState)
    ensures
        transition(s, SpawnEvent::WaitInterrupted) == s,
{
}

/// Interrupted waits, however many and wherever they fall, do not change
/// where the bootstrap ends up.
pub proof fn lemma_interruptions_do_not_change_the_outcome(s: SpawnState, events: Seq<SpawnEvent>)
    ensures
        run(s, events) == run(s, without_interruptions(events)),
    decreases events.len(),
{
    if events.len() > 0 {
        lemma_interruptions_do_not_change_the_outcome(transition(s, events[0]), events.drop_first());
        if !(events[0] is WaitInterrupted) {
            let rest = without_interruptions(events.drop_first());
            assert((seq![events[0]] + rest).drop_first() =~= rest);
        }
    }
}

/// While the intermediary runs, the bootstrap ends only on a completed or a
/// failed wait: interrupted waits, however many, never end it.
pub proof fn lemma_only_termination_ends_the_wait(pid: i32, events: Seq<SpawnEvent>)
    requires
        forall|i: int|
            0 <= i < events.len() ==> !(#[trigger] events[i] is Waited) && !(events[i] is WaitRefused),
    ensures
        run(SpawnState::IntermediaryRunning { pid }, events) == (SpawnState::IntermediaryRunning { pid }),
    decreases events.len(),
{
    if events.len() > 0 {
        let rest = events.drop_first();
        assert forall|i: int| 0 <= i < rest.len() implies !(#[trigger] rest[i] is Waited) && !(
        rest[i] is WaitRefused) by {
            assert(rest[i] == events[i + 1]);
        }
        lemma_only_termination_ends_the_wait(pid, rest);
    }
}

/// A process that could not be created never leads to success: the bootstrap
/// fails with the spawn error, whatever is reported after it.
pub proof fn lemma_refused_spawn_never_succeeds(errno: i32, later: Seq<SpawnEvent>)
    ensures
        run(SpawnState::Created, seq![SpawnEvent::SpawnRefused { errno }] + later)
            == (SpawnState::Failed { error: BootstrapError::SpawnFailed { errno } }),
{
    let events = seq![SpawnEvent::SpawnRefused { errno }] + later;
    assert(events.drop_first() =~= later);
    lemma_finished_states_are_final(
        SpawnState::Failed { error: BootstrapError::SpawnFailed { errno } },
        later,
    );
}

/// An intermediary that exits succeeds the bootstrap, whatever its exit code.
pub proof fn lemma_any_exit_code_succeeds(pid: i32, child: i32, code: i32, later: Seq<SpawnEvent>)
    ensures
        run(
            SpawnState::IntermediaryRunning { pid },
            seq![SpawnEvent::Waited { status: WaitOutcome::Exited { pid: child, code } }] + later,
        ) == SpawnState::Succeeded,
{
    let events = seq![SpawnEvent::Waited { status: WaitOutcome::Exited { pid: child, code } }]
        + later;
    assert(events.drop_first() =~= later);
    lemma_finished_states_are_final(SpawnState::Succeeded, later);
}

/// An intermediary killed by a signal fails the bootstrap, and the failure
/// carries the signal.
pub proof fn lemma_signal_fails_with_status(
    pid: i32,
    child: i32,
    signal: i32,
    core_dumped: bool,
    later: Seq<SpawnEvent>,
)
    ensures
        run(
            SpawnState::IntermediaryRunning { pid },
            seq![
                SpawnEvent::Waited {
                    status: WaitOutcome::Signaled { pid: child, signal, core_dumped },
                },
            ] + later,
        ) == (SpawnState::Failed {
            error: BootstrapError::AbnormalExit {
                status: WaitOutcome::Signaled { pid: child, signal, core_dumped },
            },
        }),
{
    let status = WaitOutcome::Signaled { pid: child, signal, core_dumped };
    let events = seq![SpawnEvent::Waited { status }] + later;
    assert(events.drop_first() =~= later);
    lemma_finished_states_are_final(
        SpawnState::Failed { error: BootstrapError::AbnormalExit { status } },
        later,
    );
}

} // verus!
