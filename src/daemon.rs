//! The Daemon Loop: one tick, then a fixed pause, forever.
use vstd::prelude::*;
use crate::source::TickFailure;

verus! {

/// The pause between two ticks, in seconds.
pub const TICK_INTERVAL_SECS: u64 = 3600;

/// What the loop does once a tick is over.
#[derive(Clone, Copy, Debug, PartialEq, Eq, Structural)]
pub struct LoopStep {
    /// Whether the tick's failure is to be written to the error stream.
    pub report: bool,
    /// How long to sleep before the next tick.
    pub sleep_secs: u64,
}

/// A failed tick is reported and otherwise ignored: whatever the outcome,
/// the loop sleeps for the fixed interval and ticks again.
pub fn after_tick(outcome: &Result<(), TickFailure>) -> (r: LoopStep)
    ensures
        r.report == outcome.is_err(),
        r.sleep_secs == TICK_INTERVAL_SECS,
{
    LoopStep { report: outcome.is_err(), sleep_secs: TICK_INTERVAL_SECS }
}

} // verus!
