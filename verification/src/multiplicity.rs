//! Settings that control how many copies of an object are written.
use vstd::prelude::*;

verus! {

/// Settings for the multiplicity of object saves.
#[derive(Debug, Clone, PartialEq, Eq, Default)]
pub struct MultiplicityConfig {
    /// How many times the storage layer retries to save an object.
    pub inner_retry_count: InnerRetryCount,

    /// How many saves are ensured beyond the data fragments.
    pub number_of_ensured_saves: NumberOfEnsuredSaves,
}

/// How many times the storage layer retries to save the object.
/// Defaults to 0.
#[derive(Debug, Copy, Clone, PartialEq, Eq, Default)]
pub struct InnerRetryCount(pub usize);

/// Number of objects ensured to be saved, apart from the data fragments.
/// Defaults to 0.
#[derive(Debug, Copy, Clone, PartialEq, Eq, Default)]
pub struct NumberOfEnsuredSaves(pub usize);

} // verus!
