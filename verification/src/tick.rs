//! The cadence of the event source: how long to wait for input before the
//! next tick is due.

use vstd::prelude::*;

verus! {

/// The tick period in nanoseconds: a fifth of a second.
pub const TICK_NANOS: u64 = 200_000_000;

/// How long the event source may block on input when `elapsed` nanoseconds
/// have passed since the last tick: what is left of the period, nothing when
/// the period is over.
pub fn poll_timeout(elapsed: u128) -> (timeout: u64)
    ensures
        elapsed >= TICK_NANOS ==> timeout == 0,
        elapsed < TICK_NANOS ==> timeout == TICK_NANOS - elapsed,
{
    if elapsed >= TICK_NANOS as u128 {
        0
    } else {
        TICK_NANOS - (elapsed as u64)
    }
}

/// Whether a tick is due when `elapsed` nanoseconds have passed since the
/// last one.
pub fn tick_due(elapsed: u128) -> (due: bool)
    ensures
        due == (elapsed >= TICK_NANOS),
{
    elapsed >= TICK_NANOS as u128
}

} // verus!
