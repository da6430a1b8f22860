//! Device-related entity definitions.
use vstd::prelude::*;

use crate::entity::server::ServerId;
use crate::error::Error;
use crate::error::ErrorKind;

verus! {

/// Identifier of a device.
pub type DeviceId = String;

/// Summary of a device.
#[derive(Debug, Clone)]
pub struct DeviceSummary {
    /// Identifier of the device.
    pub id: DeviceId,

    /// The server holding the device; `None` for a virtual device.
    pub server: Option<ServerId>,

    /// The kind of the device.
    pub kind: DeviceKind,
}

/// The kind of a device.
#[derive(Debug, Clone, Copy, PartialEq, Eq, Structural)]
pub enum DeviceKind {
    /// A virtual device grouping other devices.
    Virtual,

    /// A device kept in memory, not persisted.
    Memory,

    /// A device backed by a file.
    File,
}

/// How the nodes of a segment are spread over the devices below a
/// virtual device.
#[derive(Debug, Clone, Copy, PartialEq, Eq, Structural)]
pub enum SegmentAllocationPolicy {
    /// Nodes of one segment get distinct devices where possible.
    ScatterIfPossible,

    /// Nodes of one segment get distinct devices; failing that is an error.
    Scatter,

    /// Nodes are allocated independently, ignoring segment membership.
    Neutral,

    /// Nodes of one segment share a single device.
    Gather,
}

impl Default for SegmentAllocationPolicy {
    /// By default nodes scatter over distinct devices where possible.
    fn default() -> (p: Self)
        ensures
            p is ScatterIfPossible,
    {
        SegmentAllocationPolicy::ScatterIfPossible
    }
}

/// The wire numbering of the segment allocation policies. The numbering is
/// part of the compatibility contract with deployed nodes and never changes.
pub open spec fn spec_encode_segment_allocation_policy(policy: SegmentAllocationPolicy) -> u32 {
    match policy {
        SegmentAllocationPolicy::ScatterIfPossible => 0u32,
        SegmentAllocationPolicy::Scatter => 1u32,
        SegmentAllocationPolicy::Neutral => 2u32,
        SegmentAllocationPolicy::Gather => 3u32,
    }
}

/// The policy a wire number stands for, if any.
pub open spec fn spec_decode_segment_allocation_policy(code: u32) -> Option<
    SegmentAllocationPolicy,
> {
    if code == 0 {
        Some(SegmentAllocationPolicy::ScatterIfPossible)
    } else if code == 1 {
        Some(SegmentAllocationPolicy::Scatter)
    } else if code == 2 {
        Some(SegmentAllocationPolicy::Neutral)
    } else if code == 3 {
        Some(SegmentAllocationPolicy::Gather)
    } else {
        None
    }
}

/// Encodes a segment allocation policy as its wire number.
pub fn encode_segment_allocation_policy(policy: SegmentAllocationPolicy) -> (code: u32)
    ensures
        code == spec_encode_segment_allocation_policy(policy),
{
    match policy {
        SegmentAllocationPolicy::ScatterIfPossible => 0,
        SegmentAllocationPolicy::Scatter => 1,
        SegmentAllocationPolicy::Neutral => 2,
        SegmentAllocationPolicy::Gather => 3,
    }
}

/// Decodes a wire number back into a segment allocation policy; an unknown
/// number is rejected as invalid input.
pub fn decode_segment_allocation_policy(code: u32) -> (r: Result<SegmentAllocationPolicy, Error>)
    ensures
        match spec_decode_segment_allocation_policy(code) {
            Some(policy) => r == Ok::<SegmentAllocationPolicy, Error>(policy),
            None => r matches Err(e) && e.kind == ErrorKind::InvalidInput,
        },
{
    match code {
        0 => Ok(SegmentAllocationPolicy::ScatterIfPossible),
        1 => Ok(SegmentAllocationPolicy::Scatter),
        2 => Ok(SegmentAllocationPolicy::Neutral),
        3 => Ok(SegmentAllocationPolicy::Gather),
        _ => Err(
            Error::new(
                ErrorKind::InvalidInput,
                "unknown segment allocation policy".to_owned(),
            ),
        ),
    }
}

/// Decoding inverts encoding: every policy comes back from its own wire
/// number.
pub proof fn lemma_segment_allocation_policy_round_trip(policy: SegmentAllocationPolicy)
    ensures
        spec_decode_segment_allocation_policy(
            spec_encode_segment_allocation_policy(policy),
        ) == Some(policy),
{
}

} // verus!
