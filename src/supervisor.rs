//! The Process Supervisor: the `start` and `restart` commands, as a machine
//! from state and event to next state and action.
use vstd::prelude::*;
use crate::lock::{is_alive, recorded_pid, recorded_pid_spec, ProbeOutcome};

verus! {

/// How long `restart` waits for a terminated daemon to exit, in milliseconds.
pub const GRACE_MILLIS: u64 = 300;

#[derive(Clone, Copy, Debug, PartialEq, Eq, Structural)]
pub enum Command {
    /// Start a daemon unless one is alive.
    Start,
    /// Stop the recorded daemon, if any, then start a new one.
    Restart,
}

#[derive(Clone, Copy, Debug, PartialEq, Eq, Structural)]
pub enum SupervisorError {
    /// A live daemon owns the state directory.
    AlreadyRunning(i32),
    /// The daemon process could not be spawned.
    SpawnFailed,
}

#[derive(Clone, Copy, Debug, PartialEq, Eq, Structural)]
pub enum SupervisorState {
    ReadingRecord(Command),
    Probing(i32),
    Terminating(i32),
    Waiting(i32),
    Reprobing(i32),
    Removing,
    Spawning,
    Finished,
}

/// The work the supervisor asks for next.
#[derive(Clone, Copy, Debug, PartialEq, Eq)]
pub enum SupervisorAction {
    /// Read the Lock Record.
    ReadRecord,
    /// Probe whether this process is alive.
    Probe(i32),
    /// Send this process the termination signal.
    Terminate(i32),
    /// Sleep this many milliseconds.
    Wait(u64),
    /// Delete the Lock Record.
    RemoveRecord,
    /// Spawn the daemon, detached.
    Spawn,
    /// The command is over, with this outcome.
    Finish(Result<(), SupervisorError>),
}

#[derive(Debug)]
pub enum SupervisorEvent {
    /// The Lock Record's contents, or `None` when there is none or it
    /// cannot be read.
    RecordRead(Option<Vec<u8>>),
    Probed(ProbeOutcome),
    Signalled,
    Waited,
    Removed,
    /// Whether the spawn succeeded.
    Spawned(bool),
}

/// The positive process id that a record read names, if any.
pub open spec fn record_pid(rec: Option<Vec<u8>>) -> Option<i32> {
    match rec {
        Some(v) => recorded_pid_spec(Some(v@)),
        None => None,
    }
}

pub open spec fn supervisor_begin(command: Command) -> (SupervisorState, SupervisorAction) {
    (SupervisorState::ReadingRecord(command), SupervisorAction::ReadRecord)
}

/// The supervisor's transitions. A pairing of state and event that
/// `supervisor_awaits` rules out ends the command.
pub open spec fn supervisor_next(state: SupervisorState, event: SupervisorEvent) -> (
    SupervisorState,
    SupervisorAction,
) {
    match (state, event) {
        (SupervisorState::ReadingRecord(c), SupervisorEvent::RecordRead(rec)) => match record_pid(rec) {
            Some(p) => match c {
                Command::Start => (SupervisorState::Probing(p), SupervisorAction::Probe(p)),
                Command::Restart => (SupervisorState::Terminating(p), SupervisorAction::Terminate(p)),
            },
            None => (SupervisorState::Spawning, SupervisorAction::Spawn),
        },
        (SupervisorState::Probing(p), SupervisorEvent::Probed(o)) => if o is Failed {
            (SupervisorState::Spawning, SupervisorAction::Spawn)
        } else {
            (
                SupervisorState::Finished,
                SupervisorAction::Finish(Err(SupervisorError::AlreadyRunning(p))),
            )
        },
        (SupervisorState::Terminating(p), SupervisorEvent::Signalled) => (
            SupervisorState::Waiting(p),
            SupervisorAction::Wait(GRACE_MILLIS),
        ),
        (SupervisorState::Waiting(p), SupervisorEvent::Waited) => (
            SupervisorState::Reprobing(p),
            SupervisorAction::Probe(p),
        ),
        (SupervisorState::Reprobing(p), SupervisorEvent::Probed(o)) => if o is Failed {
            (SupervisorState::Removing, SupervisorAction::RemoveRecord)
        } else {
            (SupervisorState::Spawning, SupervisorAction::Spawn)
        },
        (SupervisorState::Removing, SupervisorEvent::Removed) => (
            SupervisorState::Spawning,
            SupervisorAction::Spawn,
        ),
        (SupervisorState::Spawning, SupervisorEvent::Spawned(ok)) => (
            SupervisorState::Finished,
            SupervisorAction::Finish(
                if ok {
                    Ok(())
                } else {
                    Err(SupervisorError::SpawnFailed)
                },
            ),
        ),
        _ => (SupervisorState::Finished, SupervisorAction::Finish(Ok(()))),
    }
}

/// Every process id that a state holds is positive.
pub open spec fn pids_positive(state: SupervisorState) -> bool {
    match state {
        SupervisorState::Probing(p) | SupervisorState::Terminating(p) | SupervisorState::Waiting(p)
        | SupervisorState::Reprobing(p) => p > 0,
        _ => true,
    }
}

/// The event that a state waits for.
pub open spec fn supervisor_awaits(state: SupervisorState, event: SupervisorEvent) -> bool {
    pids_positive(state) && match state {
        SupervisorState::ReadingRecord(_) => event is RecordRead,
        SupervisorState::Probing(_) | SupervisorState::Reprobing(_) => event is Probed,
        SupervisorState::Terminating(_) => event is Signalled,
        SupervisorState::Waiting(_) => event is Waited,
        SupervisorState::Removing => event is Removed,
        SupervisorState::Spawning => event is Spawned,
        SupervisorState::Finished => false,
    }
}

/// A command starts by reading the Lock Record.
pub fn begin_command(command: Command) -> (r: (SupervisorState, SupervisorAction))
    ensures
        r == supervisor_begin(command),
{
    (SupervisorState::ReadingRecord(command), SupervisorAction::ReadRecord)
}

pub fn supervisor_accepts(state: SupervisorState, event: &SupervisorEvent) -> (r: bool)
    ensures
        r == supervisor_awaits(state, *event),
{
    let positive = match state {
        SupervisorState::Probing(p) | SupervisorState::Terminating(p) | SupervisorState::Waiting(p)
        | SupervisorState::Reprobing(p) => p > 0,
        _ => true,
    };
    positive && match state {
        SupervisorState::ReadingRecord(_) => matches!(event, SupervisorEvent::RecordRead(_)),
        SupervisorState::Probing(_) | SupervisorState::Reprobing(_) => matches!(event, SupervisorEvent::Probed(_)),
        SupervisorState::Terminating(_) => matches!(event, SupervisorEvent::Signalled),
        SupervisorState::Waiting(_) => matches!(event, SupervisorEvent::Waited),
        SupervisorState::Removing => matches!(event, SupervisorEvent::Removed),
        SupervisorState::Spawning => matches!(event, SupervisorEvent::Spawned(_)),
        SupervisorState::Finished => false,
    }
}

/// Advances a command by one event. `start` refuses when the recorded
/// daemon is alive; `restart` terminates it, waits, and removes the record
/// only once the process is confirmed gone; both then spawn a new daemon.
/// An unreadable or unparsable record, or one naming no positive id, counts
/// as stale: no signal is sent for it.
pub fn supervisor_step(state: SupervisorState, event: SupervisorEvent) -> (r: (
    SupervisorState,
    SupervisorAction,
))
    requires
        supervisor_awaits(state, event),
    ensures
        r == supervisor_next(state, event),
        r.1 matches SupervisorAction::Probe(p) ==> p > 0,
        r.1 matches SupervisorAction::Terminate(p) ==> p > 0,
        pids_positive(r.0),
{
    match (state, event) {
        (SupervisorState::ReadingRecord(c), SupervisorEvent::RecordRead(rec)) => {
            let pid = match &rec {
                Some(v) => recorded_pid(Some(v.as_slice())),
                None => None,
            };
            match pid {
                Some(p) => match c {
                    Command::Start => (SupervisorState::Probing(p), SupervisorAction::Probe(p)),
                    Command::Restart => (SupervisorState::Terminating(p), SupervisorAction::Terminate(p)),
                },
                None => (SupervisorState::Spawning, SupervisorAction::Spawn),
            }
        },
        (SupervisorState::Probing(p), SupervisorEvent::Probed(o)) => if is_alive(o) {
            (
                SupervisorState::Finished,
                SupervisorAction::Finish(Err(SupervisorError::AlreadyRunning(p))),
            )
        } else {
            (SupervisorState::Spawning, SupervisorAction::Spawn)
        },
        (SupervisorState::Terminating(p), SupervisorEvent::Signalled) => (
            SupervisorState::Waiting(p),
            SupervisorAction::Wait(GRACE_MILLIS),
        ),
        (SupervisorState::Waiting(p), SupervisorEvent::Waited) => (
            SupervisorState::Reprobing(p),
            SupervisorAction::Probe(p),
        ),
        (SupervisorState::Reprobing(p), SupervisorEvent::Probed(o)) => if is_alive(o) {
            (SupervisorState::Spawning, SupervisorAction::Spawn)
        } else {
            (SupervisorState::Removing, SupervisorAction::RemoveRecord)
        },
        (SupervisorState::Removing, SupervisorEvent::Removed) => (
            SupervisorState::Spawning,
            SupervisorAction::Spawn,
        ),
        (SupervisorState::Spawning, SupervisorEvent::Spawned(ok)) => (
            SupervisorState::Finished,
            SupervisorAction::Finish(
                if ok {
                    Ok(())
                } else {
                    Err(SupervisorError::SpawnFailed)
                },
            ),
        ),
        _ => (SupervisorState::Finished, SupervisorAction::Finish(Ok(()))),
    }
}

/// With no Lock Record, `restart` asks for exactly what `start` asks for,
/// and ends as it does: clearing nothing is no error.
pub proof fn lemma_restart_without_record_is_start(spawned: bool)
    ensures
        supervisor_begin(Command::Restart).1 == supervisor_begin(Command::Start).1,
        supervisor_next(supervisor_begin(Command::Restart).0, SupervisorEvent::RecordRead(None))
            == supervisor_next(supervisor_begin(Command::Start).0, SupervisorEvent::RecordRead(None)),
        supervisor_next(supervisor_begin(Command::Start).0, SupervisorEvent::RecordRead(None)) == (
            SupervisorState::Spawning,
            SupervisorAction::Spawn,
        ),
        supervisor_next(SupervisorState::Spawning, SupervisorEvent::Spawned(spawned)).1 == SupervisorAction::Finish(
            if spawned {
                Ok(())
            } else {
                Err(SupervisorError::SpawnFailed)
            },
        ),
{
}

} // verus!
