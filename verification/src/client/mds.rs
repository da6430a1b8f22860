//! RPC client facade for the metadata store.
//!
//! One `Client` stands for one node of one replicated metadata group. It
//! holds only immutable configuration and constructs a fresh call
//! orchestrator per invocation; a driver performs the orchestrator's
//! dispatches and lookups.
use std::ops::Range;
use std::time::Duration;
use vstd::prelude::*;

use crate::client::Call;
use crate::client::RemoteTarget;
use crate::client::GROUP_NODE_RETRY_BUDGET;
use crate::consistency::ReadConsistency;
use crate::entity::node::RemoteNodeId;
use crate::entity::object::ObjectId;
use crate::entity::object::ObjectPrefix;
use crate::entity::object::ObjectVersion;
use crate::expect::Expect;
use crate::schema::mds;

verus! {

use vstd::string::StringExecFns;

/// RPC client facade: one per metadata group node.
#[derive(Debug)]
pub struct Client {
    /// The group node the client talks to.
    pub node: RemoteNodeId,
}

impl Client {
    /// Makes a new `Client` that talks to `node`.
    pub fn new(node: RemoteNodeId) -> (c: Self)
        ensures
            c.node == node,
    {
        Client { node }
    }

    /// Builds the `RecommendToLeaderRpc` notification: a fire-and-forget
    /// recommendation of this node as leader, with no response and no
    /// retry.
    pub fn recommend_to_leader(&self) -> (r: mds::RecommendToLeaderRequest)
        ensures
            r.node_id@ == self.node.local_id@,
    {
        mds::RecommendToLeaderRequest { node_id: self.node.local_id.clone() }
    }

    /// Starts a `ListObjectsRpc` call.
    pub fn list_objects(&self, consistency: ReadConsistency) -> (c: Call<mds::ListObjectsRequest>)
        ensures
            c.wf_group(),
            c.spec_phase() is AwaitingResponse,
            !c.spec_relocated(),
            c.spec_retried_count() == 0,
            c.spec_retry_budget() == GROUP_NODE_RETRY_BUDGET,
            c.spec_rpc_name()@ == "frugalos.mds.object.list"@,
            c.spec_target() matches RemoteTarget::GroupNode { addr, local_node_id } && addr@
                == self.node.addr@ && local_node_id@ == self.node.local_id@,
            c.spec_request().node_id@ == self.node.local_id@,
            c.spec_request().consistency == consistency,
    {
        let request = mds::ListObjectsRequest {
            node_id: self.node.local_id.clone(),
            consistency,
        };
        Call::new_group(
            self.node.clone(),
            request,
            GROUP_NODE_RETRY_BUDGET,
            String::from_str(mds::ListObjectsRpc::name()),
        )
    }

    /// Starts a `ListObjectsByPrefixRpc` call.
    pub fn list_objects_by_prefix(&self, prefix: ObjectPrefix) -> (c: Call<mds::PrefixRequest>)
        ensures
            c.wf_group(),
            c.spec_phase() is AwaitingResponse,
            !c.spec_relocated(),
            c.spec_retried_count() == 0,
            c.spec_retry_budget() == GROUP_NODE_RETRY_BUDGET,
            c.spec_rpc_name()@ == "frugalos.mds.object.list_by_prefix"@,
            c.spec_target() matches RemoteTarget::GroupNode { addr, local_node_id } && addr@
                == self.node.addr@ && local_node_id@ == self.node.local_id@,
            c.spec_request().node_id@ == self.node.local_id@,
            c.spec_request().prefix == prefix,
    {
        let request = mds::PrefixRequest {
            node_id: self.node.local_id.clone(),
            prefix,
        };
        Call::new_group(
            self.node.clone(),
            request,
            GROUP_NODE_RETRY_BUDGET,
            String::from_str(mds::ListObjectsByPrefixRpc::name()),
        )
    }

    /// Starts a `GetLatestVersionRpc` call.
    pub fn latest_version(&self) -> (c: Call<mds::GetLatestVersionRequest>)
        ensures
            c.wf_group(),
            c.spec_phase() is AwaitingResponse,
            !c.spec_relocated(),
            c.spec_retried_count() == 0,
            c.spec_retry_budget() == GROUP_NODE_RETRY_BUDGET,
            c.spec_rpc_name()@ == "frugalos.mds.object.latest_version"@,
            c.spec_target() matches RemoteTarget::GroupNode { addr, local_node_id } && addr@
                == self.node.addr@ && local_node_id@ == self.node.local_id@,
            c.spec_request().node_id@ == self.node.local_id@,
    {
        let request = mds::GetLatestVersionRequest {
            node_id: self.node.local_id.clone(),
        };
        Call::new_group(
            self.node.clone(),
            request,
            GROUP_NODE_RETRY_BUDGET,
            String::from_str(mds::GetLatestVersionRpc::name()),
        )
    }

    /// Starts a `GetObjectCountRpc` call: how many objects the segment holds.
    pub fn object_count(&self, consistency: ReadConsistency) -> (c: Call<mds::ObjectCountRequest>)
        ensures
            c.wf_group(),
            c.spec_phase() is AwaitingResponse,
            !c.spec_relocated(),
            c.spec_retried_count() == 0,
            c.spec_retry_budget() == GROUP_NODE_RETRY_BUDGET,
            c.spec_rpc_name()@ == "frugalos.mds.object.count"@,
            c.spec_target() matches RemoteTarget::GroupNode { addr, local_node_id } && addr@
                == self.node.addr@ && local_node_id@ == self.node.local_id@,
            c.spec_request().node_id@ == self.node.local_id@,
            c.spec_request().consistency == consistency,
    {
        let request = mds::ObjectCountRequest {
            node_id: self.node.local_id.clone(),
            consistency,
        };
        Call::new_group(
            self.node.clone(),
            request,
            GROUP_NODE_RETRY_BUDGET,
            String::from_str(mds::GetObjectCountRpc::name()),
        )
    }

    /// Starts a `GetObjectRpc` call.
    pub fn get_object(&self, id: ObjectId, expect: Expect, consistency: ReadConsistency) -> (c: Call<mds::ObjectRequest>)
        ensures
            c.wf_group(),
            c.spec_phase() is AwaitingResponse,
            !c.spec_relocated(),
            c.spec_retried_count() == 0,
            c.spec_retry_budget() == GROUP_NODE_RETRY_BUDGET,
            c.spec_rpc_name()@ == "frugalos.mds.object.get"@,
            c.spec_target() matches RemoteTarget::GroupNode { addr, local_node_id } && addr@
                == self.node.addr@ && local_node_id@ == self.node.local_id@,
            c.spec_request().node_id@ == self.node.local_id@,
            c.spec_request().object_id == id,
            c.spec_request().expect == expect,
            c.spec_request().consistency == Some(consistency),
    {
        let request = mds::ObjectRequest {
            node_id: self.node.local_id.clone(),
            object_id: id,
            expect,
            consistency: Some(consistency),
        };
        Call::new_group(
            self.node.clone(),
            request,
            GROUP_NODE_RETRY_BUDGET,
            String::from_str(mds::GetObjectRpc::name()),
        )
    }

    /// Starts a `HeadObjectRpc` call.
    pub fn head_object(&self, id: ObjectId, expect: Expect, consistency: ReadConsistency) -> (c: Call<mds::ObjectRequest>)
        ensures
            c.wf_group(),
            c.spec_phase() is AwaitingResponse,
            !c.spec_relocated(),
            c.spec_retried_count() == 0,
            c.spec_retry_budget() == GROUP_NODE_RETRY_BUDGET,
            c.spec_rpc_name()@ == "frugalos.mds.object.head"@,
            c.spec_target() matches RemoteTarget::GroupNode { addr, local_node_id } && addr@
                == self.node.addr@ && local_node_id@ == self.node.local_id@,
            c.spec_request().node_id@ == self.node.local_id@,
            c.spec_request().object_id == id,
            c.spec_request().expect == expect,
            c.spec_request().consistency == Some(consistency),
    {
        let request = mds::ObjectRequest {
            node_id: self.node.local_id.clone(),
            object_id: id,
            expect,
            consistency: Some(consistency),
        };
        Call::new_group(
            self.node.clone(),
            request,
            GROUP_NODE_RETRY_BUDGET,
            String::from_str(mds::HeadObjectRpc::name()),
        )
    }

    /// Starts a `PutObjectRpc` call.
    pub fn put_object(&self, id: ObjectId, metadata: Vec<u8>, expect: Expect, put_content_timeout: Duration) -> (c: Call<mds::PutObjectRequest>)
        ensures
            c.wf_group(),
            c.spec_phase() is AwaitingResponse,
            !c.spec_relocated(),
            c.spec_retried_count() == 0,
            c.spec_retry_budget() == GROUP_NODE_RETRY_BUDGET,
            c.spec_rpc_name()@ == "frugalos.mds.object.put"@,
            c.spec_target() matches RemoteTarget::GroupNode { addr, local_node_id } && addr@
                == self.node.addr@ && local_node_id@ == self.node.local_id@,
            c.spec_request().node_id@ == self.node.local_id@,
            c.spec_request().object_id == id,
            c.spec_request().metadata == metadata,
            c.spec_request().expect == expect,
            c.spec_request().put_content_timeout == put_content_timeout,
    {
        let request = mds::PutObjectRequest {
            node_id: self.node.local_id.clone(),
            object_id: id,
            metadata,
            expect,
            put_content_timeout,
        };
        Call::new_group(
            self.node.clone(),
            request,
            GROUP_NODE_RETRY_BUDGET,
            String::from_str(mds::PutObjectRpc::name()),
        )
    }

    /// Starts a `DeleteObjectRpc` call. A deletion reads nothing, so it asks for no read consistency.
    pub fn delete_object(&self, id: ObjectId, expect: Expect) -> (c: Call<mds::ObjectRequest>)
        ensures
            c.wf_group(),
            c.spec_phase() is AwaitingResponse,
            !c.spec_relocated(),
            c.spec_retried_count() == 0,
            c.spec_retry_budget() == GROUP_NODE_RETRY_BUDGET,
            c.spec_rpc_name()@ == "frugalos.mds.object.delete"@,
            c.spec_target() matches RemoteTarget::GroupNode { addr, local_node_id } && addr@
                == self.node.addr@ && local_node_id@ == self.node.local_id@,
            c.spec_request().node_id@ == self.node.local_id@,
            c.spec_request().object_id == id,
            c.spec_request().expect == expect,
            c.spec_request().consistency is None,
    {
        let request = mds::ObjectRequest {
            node_id: self.node.local_id.clone(),
            object_id: id,
            expect,
            consistency: None,
        };
        Call::new_group(
            self.node.clone(),
            request,
            GROUP_NODE_RETRY_BUDGET,
            String::from_str(mds::DeleteObjectRpc::name()),
        )
    }

    /// Starts a `DeleteObjectByVersionRpc` call.
    pub fn delete_object_by_version(&self, version: ObjectVersion) -> (c: Call<mds::VersionRequest>)
        ensures
            c.wf_group(),
            c.spec_phase() is AwaitingResponse,
            !c.spec_relocated(),
            c.spec_retried_count() == 0,
            c.spec_retry_budget() == GROUP_NODE_RETRY_BUDGET,
            c.spec_rpc_name()@ == "frugalos.mds.object.delete_by_version"@,
            c.spec_target() matches RemoteTarget::GroupNode { addr, local_node_id } && addr@
                == self.node.addr@ && local_node_id@ == self.node.local_id@,
            c.spec_request().node_id@ == self.node.local_id@,
            c.spec_request().object_version == version,
    {
        let request = mds::VersionRequest {
            node_id: self.node.local_id.clone(),
            object_version: version,
        };
        Call::new_group(
            self.node.clone(),
            request,
            GROUP_NODE_RETRY_BUDGET,
            String::from_str(mds::DeleteObjectByVersionRpc::name()),
        )
    }

    /// Starts a `DeleteObjectsByRangeRpc` call.
    pub fn delete_by_range(&self, targets: Range<ObjectVersion>) -> (c: Call<mds::RangeRequest>)
        ensures
            c.wf_group(),
            c.spec_phase() is AwaitingResponse,
            !c.spec_relocated(),
            c.spec_retried_count() == 0,
            c.spec_retry_budget() == GROUP_NODE_RETRY_BUDGET,
            c.spec_rpc_name()@ == "frugalos.mds.object.delete_by_range"@,
            c.spec_target() matches RemoteTarget::GroupNode { addr, local_node_id } && addr@
                == self.node.addr@ && local_node_id@ == self.node.local_id@,
            c.spec_request().node_id@ == self.node.local_id@,
            c.spec_request().targets == targets,
    {
        let request = mds::RangeRequest {
            node_id: self.node.local_id.clone(),
            targets,
        };
        Call::new_group(
            self.node.clone(),
            request,
            GROUP_NODE_RETRY_BUDGET,
            String::from_str(mds::DeleteObjectsByRangeRpc::name()),
        )
    }

    /// Starts a `DeleteObjectsByPrefixRpc` call.
    pub fn delete_by_prefix(&self, prefix: ObjectPrefix) -> (c: Call<mds::PrefixRequest>)
        ensures
            c.wf_group(),
            c.spec_phase() is AwaitingResponse,
            !c.spec_relocated(),
            c.spec_retried_count() == 0,
            c.spec_retry_budget() == GROUP_NODE_RETRY_BUDGET,
            c.spec_rpc_name()@ == "frugalos.mds.object.delete_by_prefix"@,
            c.spec_target() matches RemoteTarget::GroupNode { addr, local_node_id } && addr@
                == self.node.addr@ && local_node_id@ == self.node.local_id@,
            c.spec_request().node_id@ == self.node.local_id@,
            c.spec_request().prefix == prefix,
    {
        let request = mds::PrefixRequest {
            node_id: self.node.local_id.clone(),
            prefix,
        };
        Call::new_group(
            self.node.clone(),
            request,
            GROUP_NODE_RETRY_BUDGET,
            String::from_str(mds::DeleteObjectsByPrefixRpc::name()),
        )
    }

}

} // verus!
