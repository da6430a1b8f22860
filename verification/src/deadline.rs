//! Deadline of an RPC invocation.
use std::time::Duration;
use vstd::prelude::*;

verus! {

/// The deadline attached to an RPC invocation.
///
/// The transport layer enforces it; this crate only carries the value
/// through and surfaces its expiry as a `Timeout` failure.
#[derive(Debug, Clone, Copy)]
pub struct Deadline(Duration);

impl Deadline {
    /// The duration this deadline holds.
    pub closed spec fn spec_duration(&self) -> Duration {
        self.0
    }

    /// Makes a new `Deadline` holding the given duration.
    pub fn new(duration: Duration) -> (d: Self)
        ensures
            d.spec_duration() == duration,
    {
        Deadline(duration)
    }

    /// Returns the deadline as a `Duration`.
    pub fn as_duration(&self) -> (d: Duration)
        ensures
            d == self.spec_duration(),
    {
        self.0
    }
}

} // verus!
