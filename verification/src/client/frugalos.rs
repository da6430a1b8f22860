//! RPC client facade for the public storage API.
//!
//! One `Client` stands for one storage process. Its requests go to that
//! one process and are never redirected, so there is no call orchestrator
//! here: the facade builds the request values, a driver dispatches each
//! one to [`Client::server`] and classifies what comes back.
use std::collections::BTreeSet;
use std::ops::Range;
use std::time::Duration;
use vstd::prelude::*;

use crate::consistency::ReadConsistency;
use crate::entity::bucket::BucketId;
use crate::entity::device::DeviceId;
use crate::entity::object::ObjectId;
use crate::entity::object::ObjectPrefix;
use crate::entity::object::ObjectVersion;
use crate::expect::Expect;
use crate::multiplicity::MultiplicityConfig;
use crate::schema::frugalos;

verus! {

/// RPC client facade: one per storage process.
#[derive(Debug)]
pub struct Client {
    /// Address of the storage process.
    pub server: String,
}

impl Client {
    /// Makes a new `Client` that talks to `server`.
    pub fn new(server: String) -> (c: Self)
        ensures
            c.server == server,
    {
        Client { server }
    }

    /// Builds the request of a `GetObjectRpc` invocation.
    pub fn get_object(&self, bucket_id: BucketId, object_id: ObjectId, deadline: Duration, expect: Expect, consistency: ReadConsistency) -> (r: frugalos::ObjectRequest)
        ensures
            r.bucket_id == bucket_id,
            r.object_id == object_id,
            r.deadline == deadline,
            r.expect == expect,
            r.consistency == Some(consistency),
    {
        frugalos::ObjectRequest {
            bucket_id,
            object_id,
            deadline,
            expect,
            consistency: Some(consistency),
        }
    }

    /// Builds the request of a `ListObjectsRpc` invocation.
    pub fn list_objects(&self, bucket_id: BucketId, segment: u16, consistency: ReadConsistency) -> (r: frugalos::ListObjectsRequest)
        ensures
            r.bucket_id == bucket_id,
            r.segment == segment,
            r.consistency == consistency,
    {
        frugalos::ListObjectsRequest {
            bucket_id,
            segment,
            consistency,
        }
    }

    /// Builds the request of a `ListObjectsByPrefixRpc` invocation.
    pub fn list_objects_by_prefix(&self, bucket_id: BucketId, prefix: ObjectPrefix, deadline: Duration) -> (r: frugalos::PrefixRequest)
        ensures
            r.bucket_id == bucket_id,
            r.prefix == prefix,
            r.deadline == deadline,
    {
        frugalos::PrefixRequest {
            bucket_id,
            prefix,
            deadline,
        }
    }

    /// Builds the request of a `GetLatestVersionRpc` invocation.
    pub fn latest_version(&self, bucket_id: BucketId, segment: u16) -> (r: frugalos::SegmentRequest)
        ensures
            r.bucket_id == bucket_id,
            r.segment == segment,
    {
        frugalos::SegmentRequest {
            bucket_id,
            segment,
        }
    }

    /// Builds the request of a `CountFragmentsRpc` invocation.
    pub fn count_fragments(&self, bucket_id: BucketId, object_id: ObjectId, deadline: Duration, expect: Expect, consistency: ReadConsistency) -> (r: frugalos::CountFragmentsRequest)
        ensures
            r.bucket_id == bucket_id,
            r.object_id == object_id,
            r.deadline == deadline,
            r.expect == expect,
            r.consistency == consistency,
    {
        frugalos::CountFragmentsRequest {
            bucket_id,
            object_id,
            deadline,
            expect,
            consistency,
        }
    }

    /// Builds the request of a `HeadObjectRpc` invocation.
    pub fn head_object(&self, bucket_id: BucketId, object_id: ObjectId, deadline: Duration, expect: Expect, consistency: ReadConsistency, check_storage: bool) -> (r: frugalos::HeadObjectRequest)
        ensures
            r.bucket_id == bucket_id,
            r.object_id == object_id,
            r.deadline == deadline,
            r.expect == expect,
            r.consistency == consistency,
            r.check_storage == check_storage,
    {
        frugalos::HeadObjectRequest {
            bucket_id,
            object_id,
            deadline,
            expect,
            consistency,
            check_storage,
        }
    }

    /// Builds the request of a `PutObjectRpc` invocation.
    pub fn put_object(&self, bucket_id: BucketId, object_id: ObjectId, content: Vec<u8>, deadline: Duration, expect: Expect, multiplicity_config: MultiplicityConfig) -> (r: frugalos::PutObjectRequest)
        ensures
            r.bucket_id == bucket_id,
            r.object_id == object_id,
            r.content == content,
            r.deadline == deadline,
            r.expect == expect,
            r.multiplicity_config == multiplicity_config,
    {
        frugalos::PutObjectRequest {
            bucket_id,
            object_id,
            content,
            deadline,
            expect,
            multiplicity_config,
        }
    }

    /// Builds the request of a `DeleteObjectRpc` invocation. A deletion reads nothing, so it asks for no read consistency.
    pub fn delete_object(&self, bucket_id: BucketId, object_id: ObjectId, deadline: Duration, expect: Expect) -> (r: frugalos::ObjectRequest)
        ensures
            r.bucket_id == bucket_id,
            r.object_id == object_id,
            r.deadline == deadline,
            r.expect == expect,
            r.consistency is None,
    {
        frugalos::ObjectRequest {
            bucket_id,
            object_id,
            deadline,
            expect,
            consistency: None,
        }
    }

    /// Builds the request of a `DeleteObjectByVersionRpc` invocation.
    pub fn delete_object_by_version(&self, bucket_id: BucketId, segment: u16, object_version: ObjectVersion, deadline: Duration) -> (r: frugalos::VersionRequest)
        ensures
            r.bucket_id == bucket_id,
            r.segment == segment,
            r.object_version == object_version,
            r.deadline == deadline,
    {
        frugalos::VersionRequest {
            bucket_id,
            segment,
            object_version,
            deadline,
        }
    }

    /// Builds the request of a `DeleteObjectsByRangeRpc` invocation.
    pub fn delete_by_range(&self, bucket_id: BucketId, segment: u16, targets: Range<ObjectVersion>, deadline: Duration) -> (r: frugalos::RangeRequest)
        ensures
            r.bucket_id == bucket_id,
            r.segment == segment,
            r.targets == targets,
            r.deadline == deadline,
    {
        frugalos::RangeRequest {
            bucket_id,
            segment,
            targets,
            deadline,
        }
    }

    /// Builds the request of a `DeleteObjectsByPrefixRpc` invocation.
    pub fn delete_by_prefix(&self, bucket_id: BucketId, prefix: ObjectPrefix, deadline: Duration) -> (r: frugalos::PrefixRequest)
        ensures
            r.bucket_id == bucket_id,
            r.prefix == prefix,
            r.deadline == deadline,
    {
        frugalos::PrefixRequest {
            bucket_id,
            prefix,
            deadline,
        }
    }

    /// Builds the request of a `DeleteObjectSetFromDeviceRpc` invocation.
    pub fn delete_from_device_by_object_ids(&self, bucket_id: BucketId, device_id: DeviceId, object_ids: BTreeSet<ObjectId>) -> (r: frugalos::DeleteObjectSetFromDeviceRequest)
        ensures
            r.bucket_id == bucket_id,
            r.device_id == device_id,
            r.object_ids == object_ids,
    {
        frugalos::DeleteObjectSetFromDeviceRequest {
            bucket_id,
            device_id,
            object_ids,
        }
    }

}

} // verus!
