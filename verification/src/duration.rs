//! Time spans as they cross the boundary.
use vstd::prelude::*;

verus! {

/// Nanoseconds in one second.
pub const NANOS_PER_SEC: u64 = 1_000_000_000;

/// A span of time, counted in nanoseconds.
#[derive(Clone, Copy, Debug, PartialEq, Eq, Structural)]
pub struct Duration {
    pub nanos: u64,
}

impl Duration {
    /// The span of `nanos` nanoseconds.
    pub fn from_nanos(nanos: u64) -> (d: Duration)
        ensures
            d.nanos == nanos,
    {
        Duration { nanos }
    }

    /// The whole seconds of the span.
    pub fn as_secs(&self) -> (secs: u64)
        ensures
            secs == self.nanos / NANOS_PER_SEC,
            secs * NANOS_PER_SEC <= self.nanos < (secs + 1) * NANOS_PER_SEC,
    {
        self.nanos / NANOS_PER_SEC
    }

    /// What is left of the span beyond its whole seconds, in nanoseconds.
    pub fn subsec_nanos(&self) -> (nanos: u32)
        ensures
            nanos == self.nanos % NANOS_PER_SEC,
            nanos < NANOS_PER_SEC,
            (self.nanos / NANOS_PER_SEC) * NANOS_PER_SEC + nanos == self.nanos,
    {
        (self.nanos % NANOS_PER_SEC) as u32
    }
}

} // verus!
