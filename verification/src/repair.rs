//! Settings of the cluster's repair functionality.
use std::time::Duration;
use vstd::prelude::*;

verus! {

/// Whether, and after how much idleness, segments are repaired.
#[derive(Debug, Clone, Copy, PartialEq, Eq, PartialOrd, Ord)]
pub enum RepairIdleness {
    /// Repair waits for the given duration of idleness.
    Threshold(Duration),

    /// Repair is disabled.
    Disabled,
}

/// The maximum number of threads that execute repairing.
#[derive(Debug, Clone, Copy, PartialEq, Eq, PartialOrd, Ord)]
pub struct RepairConcurrencyLimit(pub u64);

/// The maximum number of threads that execute segment garbage collection.
#[derive(Debug, Clone, Copy, PartialEq, Eq, PartialOrd, Ord)]
pub struct SegmentGcConcurrencyLimit(pub u64);

/// Configuration of the repair functionality.
/// A field that is `None` remains unchanged; a field that is `Some(val)`
/// changes to `val`.
#[derive(Debug, Clone, PartialEq, Eq, Default)]
pub struct RepairConfig {
    /// Limit on concurrent repairs.
    pub repair_concurrency_limit: Option<RepairConcurrencyLimit>,

    /// Idleness threshold before repair starts.
    pub repair_idleness_threshold: Option<RepairIdleness>,

    /// Limit on concurrent segment garbage collections.
    pub segment_gc_concurrency_limit: Option<SegmentGcConcurrencyLimit>,
}

} // verus!
