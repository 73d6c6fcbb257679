//! The Instance Lock: at most one live daemon per state directory.
use vstd::prelude::*;
use crate::pidfile::{parse_pid, pid_of_record, pid_record, render_pid, lemma_record_round_trip};

verus! {

/// What a zero-effect signal sent to a process id reported.
#[derive(Clone, Copy, Debug, PartialEq, Eq, Structural)]
pub enum ProbeOutcome {
    /// The signal could be delivered.
    Delivered,
    /// The process exists but belongs to another user.
    NotPermitted,
    /// Any other failure, such as "no such process".
    Failed,
}

/// A process counts as alive when the probe got through, or was refused
/// only for lack of permission.
pub fn is_alive(outcome: ProbeOutcome) -> (r: bool)
    ensures
        r == !(outcome is Failed),
{
    match outcome {
        ProbeOutcome::Failed => false,
        _ => true,
    }
}

/// The process id that an existing Lock Record names, if the record exists
/// and names a positive one. This is the only id that is ever probed or
/// signalled: zero and negative ids stand for process groups, so a record
/// holding one is stale.
pub fn recorded_pid(existing: Option<&[u8]>) -> (r: Option<i32>)
    ensures
        r == recorded_pid_spec(opt_bytes(existing)),
        r matches Some(p) ==> p > 0,
{
    match existing {
        Some(b) => match parse_pid(b) {
            Some(p) => if p > 0 {
                Some(p)
            } else {
                None
            },
            None => None,
        },
        None => None,
    }
}

pub open spec fn opt_bytes(existing: Option<&[u8]>) -> Option<Seq<u8>> {
    match existing {
        Some(b) => Some(b@),
        None => None,
    }
}

pub open spec fn recorded_pid_spec(existing: Option<Seq<u8>>) -> Option<i32> {
    match existing {
        Some(b) => match pid_of_record(b) {
            Some(p) => if p > 0 {
                Some(p)
            } else {
                None
            },
            None => None,
        },
        None => None,
    }
}

/// The owner that makes `acquire` refuse: the recorded process, when the
/// record names one and it is alive.
pub open spec fn acquire_refusal(existing: Option<Seq<u8>>, recorded_alive: bool) -> Option<i32> {
    match recorded_pid_spec(existing) {
        Some(p) => if recorded_alive {
            Some(p)
        } else {
            None
        },
        None => None,
    }
}

/// What `acquire` does to the state directory.
#[derive(Debug)]
pub enum LockDecision {
    /// Another live daemon owns the directory: leave the record untouched.
    Refuse { owner: i32 },
    /// Take the directory: delete the stale record first when one exists,
    /// then write `record` as the new Lock Record and reopen it.
    Claim { remove_stale: bool, record: Vec<u8> },
}

/// The Lock Record left in the directory once a decision has been carried out.
pub open spec fn record_after(existing: Option<Seq<u8>>, d: LockDecision) -> Option<Seq<u8>> {
    match d {
        LockDecision::Refuse { .. } => existing,
        LockDecision::Claim { record, .. } => Some(record@),
    }
}

/// Decides `acquire` for the process `own_pid`, given the existing record
/// (`None` when there is none) and whether the process it names is alive.
/// An unreadable record counts as stale.
pub fn decide_acquire(existing: Option<&[u8]>, recorded_alive: bool, own_pid: i32) -> (r:
    LockDecision)
    ensures
        acquire_refusal(opt_bytes(existing), recorded_alive) matches Some(p) ==> r
            == (LockDecision::Refuse { owner: p }),
        r matches LockDecision::Refuse { owner } ==> owner > 0,
        acquire_refusal(opt_bytes(existing), recorded_alive) is None ==> (r matches LockDecision::Claim {
            remove_stale,
            record,
        } && remove_stale == existing.is_some() && record@ == pid_record(own_pid)),
{
    match recorded_pid(existing) {
        Some(p) => {
            if recorded_alive {
                return LockDecision::Refuse { owner: p };
            }
        },
        None => {},
    }
    LockDecision::Claim { remove_stale: existing.is_some(), record: render_pid(own_pid) }
}

/// A record that names a process which is not alive, or names no positive
/// id, never stops `acquire`, and the record written in its place names the
/// caller.
pub proof fn lemma_stale_record_replaced(existing: Seq<u8>, recorded_alive: bool, own_pid: i32)
    requires
        recorded_pid_spec(Some(existing)) is None || !recorded_alive,
    ensures
        acquire_refusal(Some(existing), recorded_alive) is None,
        pid_of_record(pid_record(own_pid)) == Some(own_pid),
{
    lemma_record_round_trip(own_pid);
}

/// A record that names a live process makes `acquire` fail with that id,
/// and a refusal leaves the record as it was.
pub proof fn lemma_live_record_kept(existing: Seq<u8>, owner: i32)
    requires
        pid_of_record(existing) == Some(owner),
        owner > 0,
    ensures
        acquire_refusal(Some(existing), true) == Some(owner),
        record_after(Some(existing), LockDecision::Refuse { owner }) == Some(existing),
{
}

/// Once a process has claimed the directory, any later `acquire` by another
/// process fails, naming the first one, for as long as the first is alive.
pub proof fn lemma_second_acquire_refused(first_pid: i32)
    requires
        first_pid > 0,
    ensures
        acquire_refusal(Some(pid_record(first_pid)), true) == Some(first_pid),
{
    lemma_record_round_trip(first_pid);
}

} // verus!
