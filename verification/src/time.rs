//! Time-related value types.
use vstd::prelude::*;

verus! {

/// A span of time measured in whole seconds.
#[derive(Debug, Clone, Copy, PartialEq, Eq, Hash, PartialOrd, Ord, Structural)]
pub struct Seconds(pub u64);

} // verus!
