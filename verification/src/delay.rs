//! Waiting times.

use vstd::prelude::*;

verus! {

/// A span of time to wait before a reconnection attempt: `secs` whole seconds
/// plus `nanos` nanoseconds.
#[derive(Clone, Copy, Debug, PartialEq, Eq, Structural)]
pub struct Delay {
    pub secs: u64,
    pub nanos: u32,
}

impl Delay {
    /// The delay of no time at all.
    pub open spec fn zero() -> Delay {
        Delay { secs: 0, nanos: 0 }
    }

    /// The length of the delay in nanoseconds.
    pub open spec fn total_nanos(self) -> nat {
        (self.secs * 1_000_000_000 + self.nanos) as nat
    }

    /// A delay of `secs` whole seconds.
    pub fn from_secs(secs: u64) -> (delay: Delay)
        ensures
            delay == (Delay { secs, nanos: 0 }),
            delay.total_nanos() == secs * 1_000_000_000,
    {
        Delay { secs, nanos: 0 }
    }

    /// A delay of `millis` milliseconds.
    pub fn from_millis(millis: u64) -> (delay: Delay)
        ensures
            delay.secs == millis / 1000,
            delay.nanos == (millis % 1000) * 1_000_000,
            delay.total_nanos() == millis * 1_000_000,
    {
        let secs: u64 = millis / 1000;
        let rest: u64 = millis % 1000;
        let nanos: u32 = (rest * 1_000_000) as u32;
        Delay { secs, nanos }
    }
}

} // verus!
