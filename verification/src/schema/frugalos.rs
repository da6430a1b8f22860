//! Schema of the public storage RPCs: procedure ids and names, and the
//! request shapes.
use std::collections::BTreeSet;
use std::ops::Range;
use std::time::Duration;
use vstd::prelude::*;

use crate::consistency::ReadConsistency;
use crate::entity::bucket::BucketId;
use crate::entity::device::DeviceId;
use crate::entity::object::ObjectId;
use crate::entity::object::ObjectPrefix;
use crate::entity::object::ObjectVersion;
use crate::expect::Expect;
use crate::multiplicity::MultiplicityConfig;

verus! {

/// Fetches one object.
#[derive(Debug)]
pub struct GetObjectRpc;

impl GetObjectRpc {
    /// The procedure id of this RPC.
    pub fn id() -> (id: u64)
        ensures
            id == 0x0009_0000u64,
    {
        0x0009_0000
    }

    /// The procedure name of this RPC, as failures are annotated with it.
    pub fn name() -> (name: &'static str)
        ensures
            name@ == "frugalos.object.get"@,
    {
        "frugalos.object.get"
    }
}

/// Checks one object's existence and version.
#[derive(Debug)]
pub struct HeadObjectRpc;

impl HeadObjectRpc {
    /// The procedure id of this RPC.
    pub fn id() -> (id: u64)
        ensures
            id == 0x0009_0001u64,
    {
        0x0009_0001
    }

    /// The procedure name of this RPC, as failures are annotated with it.
    pub fn name() -> (name: &'static str)
        ensures
            name@ == "frugalos.object.head"@,
    {
        "frugalos.object.head"
    }
}

/// Saves one object.
#[derive(Debug)]
pub struct PutObjectRpc;

impl PutObjectRpc {
    /// The procedure id of this RPC.
    pub fn id() -> (id: u64)
        ensures
            id == 0x0009_0002u64,
    {
        0x0009_0002
    }

    /// The procedure name of this RPC, as failures are annotated with it.
    pub fn name() -> (name: &'static str)
        ensures
            name@ == "frugalos.object.put"@,
    {
        "frugalos.object.put"
    }
}

/// Deletes one object.
#[derive(Debug)]
pub struct DeleteObjectRpc;

impl DeleteObjectRpc {
    /// The procedure id of this RPC.
    pub fn id() -> (id: u64)
        ensures
            id == 0x0009_0003u64,
    {
        0x0009_0003
    }

    /// The procedure name of this RPC, as failures are annotated with it.
    pub fn name() -> (name: &'static str)
        ensures
            name@ == "frugalos.object.delete"@,
    {
        "frugalos.object.delete"
    }
}

/// Lists the objects of a segment.
#[derive(Debug)]
pub struct ListObjectsRpc;

impl ListObjectsRpc {
    /// The procedure id of this RPC.
    pub fn id() -> (id: u64)
        ensures
            id == 0x0009_0004u64,
    {
        0x0009_0004
    }

    /// The procedure name of this RPC, as failures are annotated with it.
    pub fn name() -> (name: &'static str)
        ensures
            name@ == "frugalos.object.list"@,
    {
        "frugalos.object.list"
    }
}

/// Fetches the summary of a segment's newest object.
#[derive(Debug)]
pub struct GetLatestVersionRpc;

impl GetLatestVersionRpc {
    /// The procedure id of this RPC.
    pub fn id() -> (id: u64)
        ensures
            id == 0x0009_0005u64,
    {
        0x0009_0005
    }

    /// The procedure name of this RPC, as failures are annotated with it.
    pub fn name() -> (name: &'static str)
        ensures
            name@ == "frugalos.object.latest_version"@,
    {
        "frugalos.object.latest_version"
    }
}

/// Deletes the object at a given version.
#[derive(Debug)]
pub struct DeleteObjectByVersionRpc;

impl DeleteObjectByVersionRpc {
    /// The procedure id of this RPC.
    pub fn id() -> (id: u64)
        ensures
            id == 0x0009_0006u64,
    {
        0x0009_0006
    }

    /// The procedure name of this RPC, as failures are annotated with it.
    pub fn name() -> (name: &'static str)
        ensures
            name@ == "frugalos.object.delete_by_version"@,
    {
        "frugalos.object.delete_by_version"
    }
}

/// Deletes the objects within a version range.
#[derive(Debug)]
pub struct DeleteObjectsByRangeRpc;

impl DeleteObjectsByRangeRpc {
    /// The procedure id of this RPC.
    pub fn id() -> (id: u64)
        ensures
            id == 0x0009_0007u64,
    {
        0x0009_0007
    }

    /// The procedure name of this RPC, as failures are annotated with it.
    pub fn name() -> (name: &'static str)
        ensures
            name@ == "frugalos.object.delete_by_range"@,
    {
        "frugalos.object.delete_by_range"
    }
}

/// Deletes the objects whose ids share a prefix.
#[derive(Debug)]
pub struct DeleteObjectsByPrefixRpc;

impl DeleteObjectsByPrefixRpc {
    /// The procedure id of this RPC.
    pub fn id() -> (id: u64)
        ensures
            id == 0x0009_0009u64,
    {
        0x0009_0009
    }

    /// The procedure name of this RPC, as failures are annotated with it.
    pub fn name() -> (name: &'static str)
        ensures
            name@ == "frugalos.object.delete_by_prefix"@,
    {
        "frugalos.object.delete_by_prefix"
    }
}

/// Deletes a set of objects from one device.
#[derive(Debug)]
pub struct DeleteObjectSetFromDeviceRpc;

impl DeleteObjectSetFromDeviceRpc {
    /// The procedure id of this RPC.
    pub fn id() -> (id: u64)
        ensures
            id == 0x0009_000au64,
    {
        0x0009_000a
    }

    /// The procedure name of this RPC, as failures are annotated with it.
    pub fn name() -> (name: &'static str)
        ensures
            name@ == "frugalos.object.delete_object_set_from_device"@,
    {
        "frugalos.object.delete_object_set_from_device"
    }
}

/// Lists the objects whose ids share a prefix.
#[derive(Debug)]
pub struct ListObjectsByPrefixRpc;

impl ListObjectsByPrefixRpc {
    /// The procedure id of this RPC.
    pub fn id() -> (id: u64)
        ensures
            id == 0x0009_000bu64,
    {
        0x0009_000b
    }

    /// The procedure name of this RPC, as failures are annotated with it.
    pub fn name() -> (name: &'static str)
        ensures
            name@ == "frugalos.object.list_by_prefix"@,
    {
        "frugalos.object.list_by_prefix"
    }
}

/// Counts the stored fragments of one object.
#[derive(Debug)]
pub struct CountFragmentsRpc;

impl CountFragmentsRpc {
    /// The procedure id of this RPC.
    pub fn id() -> (id: u64)
        ensures
            id == 0x0009_000du64,
    {
        0x0009_000d
    }

    /// The procedure name of this RPC, as failures are annotated with it.
    pub fn name() -> (name: &'static str)
        ensures
            name@ == "frugalos.object.count_fragments"@,
    {
        "frugalos.object.count_fragments"
    }
}

/// Stops the addressed process.
#[derive(Debug)]
pub struct StopRpc;

impl StopRpc {
    /// The procedure id of this RPC.
    pub fn id() -> (id: u64)
        ensures
            id == 0x000a_0000u64,
    {
        0x000a_0000
    }

    /// The procedure name of this RPC, as failures are annotated with it.
    pub fn name() -> (name: &'static str)
        ensures
            name@ == "frugalos.ctrl.stop"@,
    {
        "frugalos.ctrl.stop"
    }
}

/// Takes a snapshot of the addressed process's state.
#[derive(Debug)]
pub struct TakeSnapshotRpc;

impl TakeSnapshotRpc {
    /// The procedure id of this RPC.
    pub fn id() -> (id: u64)
        ensures
            id == 0x000a_0001u64,
    {
        0x000a_0001
    }

    /// The procedure name of this RPC, as failures are annotated with it.
    pub fn name() -> (name: &'static str)
        ensures
            name@ == "frugalos.ctrl.take_snapshot"@,
    {
        "frugalos.ctrl.take_snapshot"
    }
}

/// Changes the repair configuration of the addressed process.
#[derive(Debug)]
pub struct SetRepairConfigRpc;

impl SetRepairConfigRpc {
    /// The procedure id of this RPC.
    pub fn id() -> (id: u64)
        ensures
            id == 0x000a_0002u64,
    {
        0x000a_0002
    }

    /// The procedure name of this RPC, as failures are annotated with it.
    pub fn name() -> (name: &'static str)
        ensures
            name@ == "frugalos.ctrl.set_repair_config"@,
    {
        "frugalos.ctrl.set_repair_config"
    }
}

/// Request about one object.
#[derive(Debug)]
pub struct ObjectRequest {
    /// Identifier of the bucket.
    pub bucket_id: BucketId,

    /// Identifier of the object.
    pub object_id: ObjectId,

    /// Deadline of the operation.
    pub deadline: Duration,

    /// The version the object is expected at.
    pub expect: Expect,

    /// How strong a read is asked for, where the operation reads.
    pub consistency: Option<ReadConsistency>,
}

/// Request of a fragment count.
#[derive(Debug)]
pub struct CountFragmentsRequest {
    /// Identifier of the bucket.
    pub bucket_id: BucketId,

    /// Identifier of the object.
    pub object_id: ObjectId,

    /// Deadline of the operation.
    pub deadline: Duration,

    /// The version the object is expected at.
    pub expect: Expect,

    /// How strong a read is asked for.
    pub consistency: ReadConsistency,
}

/// Request of an existence check.
#[derive(Debug)]
pub struct HeadObjectRequest {
    /// Identifier of the bucket.
    pub bucket_id: BucketId,

    /// Identifier of the object.
    pub object_id: ObjectId,

    /// Deadline of the operation.
    pub deadline: Duration,

    /// The version the object is expected at.
    pub expect: Expect,

    /// How strong a read is asked for.
    pub consistency: ReadConsistency,

    /// Whether the storage layer is asked too.
    pub check_storage: bool,
}

/// Request about the object at one version.
#[derive(Debug)]
pub struct VersionRequest {
    /// Identifier of the bucket.
    pub bucket_id: BucketId,

    /// Number of the segment.
    pub segment: u16,

    /// The version of the object.
    pub object_version: ObjectVersion,

    /// Deadline of the operation.
    pub deadline: Duration,
}

/// Request about the objects within a version range.
#[derive(Debug)]
pub struct RangeRequest {
    /// Identifier of the bucket.
    pub bucket_id: BucketId,

    /// Number of the segment.
    pub segment: u16,

    /// The targeted versions.
    pub targets: Range<ObjectVersion>,

    /// Deadline of the operation.
    pub deadline: Duration,
}

/// Request about the objects whose ids share a prefix.
#[derive(Debug)]
pub struct PrefixRequest {
    /// Identifier of the bucket.
    pub bucket_id: BucketId,

    /// The shared prefix.
    pub prefix: ObjectPrefix,

    /// Deadline of the operation.
    pub deadline: Duration,
}

/// Request to save one object.
#[derive(Debug)]
pub struct PutObjectRequest {
    /// Identifier of the bucket.
    pub bucket_id: BucketId,

    /// Identifier of the object.
    pub object_id: ObjectId,

    /// The content to save.
    pub content: Vec<u8>,

    /// Deadline of the operation.
    pub deadline: Duration,

    /// The version the object is expected at.
    pub expect: Expect,

    /// How many copies the save has to make.
    pub multiplicity_config: MultiplicityConfig,
}

/// Request of an object listing.
#[derive(Debug)]
pub struct ListObjectsRequest {
    /// Identifier of the bucket.
    pub bucket_id: BucketId,

    /// Number of the segment.
    pub segment: u16,

    /// How strong a read is asked for.
    pub consistency: ReadConsistency,
}

/// Request about one segment.
#[derive(Debug)]
pub struct SegmentRequest {
    /// Identifier of the bucket.
    pub bucket_id: BucketId,

    /// Number of the segment.
    pub segment: u16,
}

/// Request to delete a set of objects from one device.
#[derive(Debug)]
pub struct DeleteObjectSetFromDeviceRequest {
    /// The bucket that may own the objects.
    pub bucket_id: BucketId,

    /// The device that may hold the objects.
    pub device_id: DeviceId,

    /// The objects to delete.
    pub object_ids: BTreeSet<ObjectId>,
}

} // verus!
