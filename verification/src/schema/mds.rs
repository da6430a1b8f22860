//! Schema of the metadata-store RPCs: procedure ids and names, and the
//! request shapes. Every request embeds the id of the group node it is
//! meant for, so each request type carries the node-id rewrite
//! capability.
use std::ops::Range;
use std::time::Duration;
use vstd::prelude::*;

use crate::client::SetNodeId;
use crate::consistency::ReadConsistency;
use crate::entity::node::LocalNodeId;
use crate::entity::object::ObjectId;
use crate::entity::object::ObjectPrefix;
use crate::entity::object::ObjectVersion;
use crate::expect::Expect;

verus! {

/// Asks a group member for the group's current leader.
#[derive(Debug)]
pub struct GetLeaderRpc;

impl GetLeaderRpc {
    /// The procedure id of this RPC.
    pub fn id() -> (id: u64)
        ensures
            id == 0x0007_0000u64,
    {
        0x0007_0000
    }

    /// The procedure name of this RPC, as failures are annotated with it.
    pub fn name() -> (name: &'static str)
        ensures
            name@ == "frugalos.mds.leader.get"@,
    {
        "frugalos.mds.leader.get"
    }
}

/// Recommends a node to the group as its leader: a fire-and-forget notification with no response.
#[derive(Debug)]
pub struct RecommendToLeaderRpc;

impl RecommendToLeaderRpc {
    /// The procedure id of this RPC.
    pub fn id() -> (id: u64)
        ensures
            id == 0x0007_0001u64,
    {
        0x0007_0001
    }

    /// The procedure name of this RPC, as failures are annotated with it.
    pub fn name() -> (name: &'static str)
        ensures
            name@ == "frugalos.mds.leader.recommend"@,
    {
        "frugalos.mds.leader.recommend"
    }
}

/// Lists the objects of a segment.
#[derive(Debug)]
pub struct ListObjectsRpc;

impl ListObjectsRpc {
    /// The procedure id of this RPC.
    pub fn id() -> (id: u64)
        ensures
            id == 0x0008_0000u64,
    {
        0x0008_0000
    }

    /// The procedure name of this RPC, as failures are annotated with it.
    pub fn name() -> (name: &'static str)
        ensures
            name@ == "frugalos.mds.object.list"@,
    {
        "frugalos.mds.object.list"
    }
}

/// Fetches one object's metadata.
#[derive(Debug)]
pub struct GetObjectRpc;

impl GetObjectRpc {
    /// The procedure id of this RPC.
    pub fn id() -> (id: u64)
        ensures
            id == 0x0008_0001u64,
    {
        0x0008_0001
    }

    /// The procedure name of this RPC, as failures are annotated with it.
    pub fn name() -> (name: &'static str)
        ensures
            name@ == "frugalos.mds.object.get"@,
    {
        "frugalos.mds.object.get"
    }
}

/// Checks one object's existence and version.
#[derive(Debug)]
pub struct HeadObjectRpc;

impl HeadObjectRpc {
    /// The procedure id of this RPC.
    pub fn id() -> (id: u64)
        ensures
            id == 0x0008_0002u64,
    {
        0x0008_0002
    }

    /// The procedure name of this RPC, as failures are annotated with it.
    pub fn name() -> (name: &'static str)
        ensures
            name@ == "frugalos.mds.object.head"@,
    {
        "frugalos.mds.object.head"
    }
}

/// Saves one object's metadata.
#[derive(Debug)]
pub struct PutObjectRpc;

impl PutObjectRpc {
    /// The procedure id of this RPC.
    pub fn id() -> (id: u64)
        ensures
            id == 0x0008_0003u64,
    {
        0x0008_0003
    }

    /// The procedure name of this RPC, as failures are annotated with it.
    pub fn name() -> (name: &'static str)
        ensures
            name@ == "frugalos.mds.object.put"@,
    {
        "frugalos.mds.object.put"
    }
}

/// Deletes one object.
#[derive(Debug)]
pub struct DeleteObjectRpc;

impl DeleteObjectRpc {
    /// The procedure id of this RPC.
    pub fn id() -> (id: u64)
        ensures
            id == 0x0008_0004u64,
    {
        0x0008_0004
    }

    /// The procedure name of this RPC, as failures are annotated with it.
    pub fn name() -> (name: &'static str)
        ensures
            name@ == "frugalos.mds.object.delete"@,
    {
        "frugalos.mds.object.delete"
    }
}

/// Fetches the summary of the newest object.
#[derive(Debug)]
pub struct GetLatestVersionRpc;

impl GetLatestVersionRpc {
    /// The procedure id of this RPC.
    pub fn id() -> (id: u64)
        ensures
            id == 0x0008_0005u64,
    {
        0x0008_0005
    }

    /// The procedure name of this RPC, as failures are annotated with it.
    pub fn name() -> (name: &'static str)
        ensures
            name@ == "frugalos.mds.object.latest_version"@,
    {
        "frugalos.mds.object.latest_version"
    }
}

/// Deletes the object at a given version.
#[derive(Debug)]
pub struct DeleteObjectByVersionRpc;

impl DeleteObjectByVersionRpc {
    /// The procedure id of this RPC.
    pub fn id() -> (id: u64)
        ensures
            id == 0x0008_0006u64,
    {
        0x0008_0006
    }

    /// The procedure name of this RPC, as failures are annotated with it.
    pub fn name() -> (name: &'static str)
        ensures
            name@ == "frugalos.mds.object.delete_by_version"@,
    {
        "frugalos.mds.object.delete_by_version"
    }
}

/// Deletes the objects within a version range.
#[derive(Debug)]
pub struct DeleteObjectsByRangeRpc;

impl DeleteObjectsByRangeRpc {
    /// The procedure id of this RPC.
    pub fn id() -> (id: u64)
        ensures
            id == 0x0008_0007u64,
    {
        0x0008_0007
    }

    /// The procedure name of this RPC, as failures are annotated with it.
    pub fn name() -> (name: &'static str)
        ensures
            name@ == "frugalos.mds.object.delete_by_range"@,
    {
        "frugalos.mds.object.delete_by_range"
    }
}

/// Counts the objects a segment holds.
#[derive(Debug)]
pub struct GetObjectCountRpc;

impl GetObjectCountRpc {
    /// The procedure id of this RPC.
    pub fn id() -> (id: u64)
        ensures
            id == 0x0008_0008u64,
    {
        0x0008_0008
    }

    /// The procedure name of this RPC, as failures are annotated with it.
    pub fn name() -> (name: &'static str)
        ensures
            name@ == "frugalos.mds.object.count"@,
    {
        "frugalos.mds.object.count"
    }
}

/// Deletes the objects whose ids share a prefix.
#[derive(Debug)]
pub struct DeleteObjectsByPrefixRpc;

impl DeleteObjectsByPrefixRpc {
    /// The procedure id of this RPC.
    pub fn id() -> (id: u64)
        ensures
            id == 0x0008_0009u64,
    {
        0x0008_0009
    }

    /// The procedure name of this RPC, as failures are annotated with it.
    pub fn name() -> (name: &'static str)
        ensures
            name@ == "frugalos.mds.object.delete_by_prefix"@,
    {
        "frugalos.mds.object.delete_by_prefix"
    }
}

/// Lists the objects whose ids share a prefix.
#[derive(Debug)]
pub struct ListObjectsByPrefixRpc;

impl ListObjectsByPrefixRpc {
    /// The procedure id of this RPC.
    pub fn id() -> (id: u64)
        ensures
            id == 0x0008_000au64,
    {
        0x0008_000a
    }

    /// The procedure name of this RPC, as failures are annotated with it.
    pub fn name() -> (name: &'static str)
        ensures
            name@ == "frugalos.mds.object.list_by_prefix"@,
    {
        "frugalos.mds.object.list_by_prefix"
    }
}

/// Request of a leader lookup.
#[derive(Debug, Clone)]
pub struct GetLeaderRequest {
    /// Identifier of the group node this request is meant for.
    pub node_id: LocalNodeId,
}

impl SetNodeId for GetLeaderRequest {
    open spec fn node_id_view(&self) -> Seq<char> {
        self.node_id@
    }

    fn set_node_id(&mut self, node_id: LocalNodeId) {
        self.node_id = node_id;
    }
}

/// Request of a leader recommendation.
#[derive(Debug, Clone)]
pub struct RecommendToLeaderRequest {
    /// Identifier of the group node this request is meant for.
    pub node_id: LocalNodeId,
}

impl SetNodeId for RecommendToLeaderRequest {
    open spec fn node_id_view(&self) -> Seq<char> {
        self.node_id@
    }

    fn set_node_id(&mut self, node_id: LocalNodeId) {
        self.node_id = node_id;
    }
}

/// Request of the newest object's summary.
#[derive(Debug, Clone)]
pub struct GetLatestVersionRequest {
    /// Identifier of the group node this request is meant for.
    pub node_id: LocalNodeId,
}

impl SetNodeId for GetLatestVersionRequest {
    open spec fn node_id_view(&self) -> Seq<char> {
        self.node_id@
    }

    fn set_node_id(&mut self, node_id: LocalNodeId) {
        self.node_id = node_id;
    }
}

/// Request about one object.
#[derive(Debug, Clone)]
pub struct ObjectRequest {
    /// Identifier of the group node this request is meant for.
    pub node_id: LocalNodeId,

    /// Identifier of the object.
    pub object_id: ObjectId,

    /// The version the object is expected at.
    pub expect: Expect,

    /// How strong a read is asked for, where the operation reads.
    pub consistency: Option<ReadConsistency>,
}

impl SetNodeId for ObjectRequest {
    open spec fn node_id_view(&self) -> Seq<char> {
        self.node_id@
    }

    fn set_node_id(&mut self, node_id: LocalNodeId) {
        self.node_id = node_id;
    }
}

/// Request of an object listing.
#[derive(Debug, Clone)]
pub struct ListObjectsRequest {
    /// Identifier of the group node this request is meant for.
    pub node_id: LocalNodeId,

    /// How strong a read is asked for.
    pub consistency: ReadConsistency,
}

impl SetNodeId for ListObjectsRequest {
    open spec fn node_id_view(&self) -> Seq<char> {
        self.node_id@
    }

    fn set_node_id(&mut self, node_id: LocalNodeId) {
        self.node_id = node_id;
    }
}

/// Request of an object count.
#[derive(Debug, Clone)]
pub struct ObjectCountRequest {
    /// Identifier of the group node this request is meant for.
    pub node_id: LocalNodeId,

    /// How strong a read is asked for.
    pub consistency: ReadConsistency,
}

impl SetNodeId for ObjectCountRequest {
    open spec fn node_id_view(&self) -> Seq<char> {
        self.node_id@
    }

    fn set_node_id(&mut self, node_id: LocalNodeId) {
        self.node_id = node_id;
    }
}

/// Request about the object at one version.
#[derive(Debug, Clone)]
pub struct VersionRequest {
    /// Identifier of the group node this request is meant for.
    pub node_id: LocalNodeId,

    /// The version of the object.
    pub object_version: ObjectVersion,
}

impl SetNodeId for VersionRequest {
    open spec fn node_id_view(&self) -> Seq<char> {
        self.node_id@
    }

    fn set_node_id(&mut self, node_id: LocalNodeId) {
        self.node_id = node_id;
    }
}

/// Request about the objects within a version range.
#[derive(Debug)]
pub struct RangeRequest {
    /// Identifier of the group node this request is meant for.
    pub node_id: LocalNodeId,

    /// The targeted versions.
    pub targets: Range<ObjectVersion>,
}

impl SetNodeId for RangeRequest {
    open spec fn node_id_view(&self) -> Seq<char> {
        self.node_id@
    }

    fn set_node_id(&mut self, node_id: LocalNodeId) {
        self.node_id = node_id;
    }
}

/// Request about the objects whose ids share a prefix.
#[derive(Debug, Clone)]
pub struct PrefixRequest {
    /// Identifier of the group node this request is meant for.
    pub node_id: LocalNodeId,

    /// The shared prefix.
    pub prefix: ObjectPrefix,
}

impl SetNodeId for PrefixRequest {
    open spec fn node_id_view(&self) -> Seq<char> {
        self.node_id@
    }

    fn set_node_id(&mut self, node_id: LocalNodeId) {
        self.node_id = node_id;
    }
}

/// Request to save one object's metadata.
#[derive(Debug)]
pub struct PutObjectRequest {
    /// Identifier of the group node this request is meant for.
    pub node_id: LocalNodeId,

    /// Identifier of the object.
    pub object_id: ObjectId,

    /// The serialized metadata to save.
    pub metadata: Vec<u8>,

    /// The version the object is expected at.
    pub expect: Expect,

    /// How long the saved content may take to arrive.
    pub put_content_timeout: Duration,
}

impl SetNodeId for PutObjectRequest {
    open spec fn node_id_view(&self) -> Seq<char> {
        self.node_id@
    }

    fn set_node_id(&mut self, node_id: LocalNodeId) {
        self.node_id = node_id;
    }
}

} // verus!
