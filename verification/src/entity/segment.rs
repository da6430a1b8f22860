//! Segment-related entity definitions.
use vstd::prelude::*;

verus! {

/// Storage statistics of one segment.
#[derive(Debug, Default, Clone, PartialEq, Eq)]
pub struct SegmentStatistics {
    /// Measured storage usage in bytes.
    pub storage_usage_bytes_real: u64,

    /// Estimated storage usage in bytes.
    pub storage_usage_bytes_approximation: u64,
}

} // verus!
