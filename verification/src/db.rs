//! What the conversation store asks of its clock.

use vstd::prelude::*;

verus! {

/// The clock of the conversation store: it knows time by whole seconds.
#[derive(Debug, Clone, Copy, Default, PartialEq, Eq)]
pub struct TimeService;

impl TimeService {
    /// The time that the store writes for a reading of the clock, given
    /// as seconds since the epoch and the nanoseconds within the second:
    /// the same second, without its nanoseconds.
    pub fn utc_now(&self, seconds: i64, nanos: u32) -> (now: (i64, u32))
        ensures
            now == (seconds, 0u32),
    {
        (seconds, 0)
    }
}

} // verus!
