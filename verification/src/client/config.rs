//! RPC client facade for the configuration-management API.
//!
//! One `Client` stands for the cluster-wide configuration service. It
//! holds only immutable configuration and constructs a fresh call
//! orchestrator per invocation; a driver performs the orchestrator's
//! dispatches and lookups.
use vstd::prelude::*;

use crate::client::Call;
use crate::client::RemoteTarget;
use crate::client::FIXED_ENDPOINT_RETRY_BUDGET;
use crate::entity::bucket::Bucket;
use crate::entity::bucket::BucketId;
use crate::entity::device::DeviceId;
use crate::entity::server::Server;
use crate::entity::server::ServerId;
use crate::schema::config;

verus! {

use vstd::string::StringExecFns;

/// RPC client facade: one per cluster.
#[derive(Debug)]
pub struct Client {
    /// Address of the member the client first contacts.
    pub contact_server: String,
}

impl Client {
    /// Makes a new `Client` whose calls start at `contact_server`.
    pub fn new(contact_server: String) -> (c: Self)
        ensures
            c.contact_server == contact_server,
    {
        Client { contact_server }
    }

    /// Starts a `ListServersRpc` call.
    pub fn list_servers(&self) -> (c: Call<()>)
        ensures
            c.wf(),
            c.spec_phase() is AwaitingResponse,
            !c.spec_relocated(),
            c.spec_retried_count() == 0,
            c.spec_retry_budget() == FIXED_ENDPOINT_RETRY_BUDGET,
            c.spec_rpc_name()@ == "frugalos.config.server.list"@,
            c.spec_target() matches RemoteTarget::FixedEndpoint { addr } && addr@
                == self.contact_server@,
    {
        Call::new_fixed(
            self.contact_server.clone(),
            (),
            FIXED_ENDPOINT_RETRY_BUDGET,
            String::from_str(config::ListServersRpc::name()),
        )
    }

    /// Starts a `GetServerRpc` call.
    pub fn get_server(&self, server: ServerId) -> (c: Call<ServerId>)
        ensures
            c.wf(),
            c.spec_phase() is AwaitingResponse,
            !c.spec_relocated(),
            c.spec_retried_count() == 0,
            c.spec_retry_budget() == FIXED_ENDPOINT_RETRY_BUDGET,
            c.spec_rpc_name()@ == "frugalos.config.server.get"@,
            c.spec_target() matches RemoteTarget::FixedEndpoint { addr } && addr@
                == self.contact_server@,
            c.spec_request() == server,
    {
        Call::new_fixed(
            self.contact_server.clone(),
            server,
            FIXED_ENDPOINT_RETRY_BUDGET,
            String::from_str(config::GetServerRpc::name()),
        )
    }

    /// Starts a `PutServerRpc` call.
    pub fn put_server(&self, server: Server) -> (c: Call<Server>)
        ensures
            c.wf(),
            c.spec_phase() is AwaitingResponse,
            !c.spec_relocated(),
            c.spec_retried_count() == 0,
            c.spec_retry_budget() == FIXED_ENDPOINT_RETRY_BUDGET,
            c.spec_rpc_name()@ == "frugalos.config.server.put"@,
            c.spec_target() matches RemoteTarget::FixedEndpoint { addr } && addr@
                == self.contact_server@,
            c.spec_request() == server,
    {
        Call::new_fixed(
            self.contact_server.clone(),
            server,
            FIXED_ENDPOINT_RETRY_BUDGET,
            String::from_str(config::PutServerRpc::name()),
        )
    }

    /// Starts a `DeleteServerRpc` call.
    pub fn delete_server(&self, server: ServerId) -> (c: Call<ServerId>)
        ensures
            c.wf(),
            c.spec_phase() is AwaitingResponse,
            !c.spec_relocated(),
            c.spec_retried_count() == 0,
            c.spec_retry_budget() == FIXED_ENDPOINT_RETRY_BUDGET,
            c.spec_rpc_name()@ == "frugalos.config.server.delete"@,
            c.spec_target() matches RemoteTarget::FixedEndpoint { addr } && addr@
                == self.contact_server@,
            c.spec_request() == server,
    {
        Call::new_fixed(
            self.contact_server.clone(),
            server,
            FIXED_ENDPOINT_RETRY_BUDGET,
            String::from_str(config::DeleteServerRpc::name()),
        )
    }

    /// Starts a `ListDevicesRpc` call.
    pub fn list_devices(&self) -> (c: Call<()>)
        ensures
            c.wf(),
            c.spec_phase() is AwaitingResponse,
            !c.spec_relocated(),
            c.spec_retried_count() == 0,
            c.spec_retry_budget() == FIXED_ENDPOINT_RETRY_BUDGET,
            c.spec_rpc_name()@ == "frugalos.config.device.list"@,
            c.spec_target() matches RemoteTarget::FixedEndpoint { addr } && addr@
                == self.contact_server@,
    {
        Call::new_fixed(
            self.contact_server.clone(),
            (),
            FIXED_ENDPOINT_RETRY_BUDGET,
            String::from_str(config::ListDevicesRpc::name()),
        )
    }

    /// Starts a `GetDeviceRpc` call.
    pub fn get_device(&self, device: DeviceId) -> (c: Call<DeviceId>)
        ensures
            c.wf(),
            c.spec_phase() is AwaitingResponse,
            !c.spec_relocated(),
            c.spec_retried_count() == 0,
            c.spec_retry_budget() == FIXED_ENDPOINT_RETRY_BUDGET,
            c.spec_rpc_name()@ == "frugalos.config.device.get"@,
            c.spec_target() matches RemoteTarget::FixedEndpoint { addr } && addr@
                == self.contact_server@,
            c.spec_request() == device,
    {
        Call::new_fixed(
            self.contact_server.clone(),
            device,
            FIXED_ENDPOINT_RETRY_BUDGET,
            String::from_str(config::GetDeviceRpc::name()),
        )
    }

    /// Starts a `DeleteDeviceRpc` call.
    pub fn delete_device(&self, device: DeviceId) -> (c: Call<DeviceId>)
        ensures
            c.wf(),
            c.spec_phase() is AwaitingResponse,
            !c.spec_relocated(),
            c.spec_retried_count() == 0,
            c.spec_retry_budget() == FIXED_ENDPOINT_RETRY_BUDGET,
            c.spec_rpc_name()@ == "frugalos.config.device.delete"@,
            c.spec_target() matches RemoteTarget::FixedEndpoint { addr } && addr@
                == self.contact_server@,
            c.spec_request() == device,
    {
        Call::new_fixed(
            self.contact_server.clone(),
            device,
            FIXED_ENDPOINT_RETRY_BUDGET,
            String::from_str(config::DeleteDeviceRpc::name()),
        )
    }

    /// Starts a `ListBucketsRpc` call.
    pub fn list_buckets(&self) -> (c: Call<()>)
        ensures
            c.wf(),
            c.spec_phase() is AwaitingResponse,
            !c.spec_relocated(),
            c.spec_retried_count() == 0,
            c.spec_retry_budget() == FIXED_ENDPOINT_RETRY_BUDGET,
            c.spec_rpc_name()@ == "frugalos.config.bucket.list"@,
            c.spec_target() matches RemoteTarget::FixedEndpoint { addr } && addr@
                == self.contact_server@,
    {
        Call::new_fixed(
            self.contact_server.clone(),
            (),
            FIXED_ENDPOINT_RETRY_BUDGET,
            String::from_str(config::ListBucketsRpc::name()),
        )
    }

    /// Starts a `GetBucketRpc` call.
    pub fn get_bucket(&self, bucket: BucketId) -> (c: Call<BucketId>)
        ensures
            c.wf(),
            c.spec_phase() is AwaitingResponse,
            !c.spec_relocated(),
            c.spec_retried_count() == 0,
            c.spec_retry_budget() == FIXED_ENDPOINT_RETRY_BUDGET,
            c.spec_rpc_name()@ == "frugalos.config.bucket.get"@,
            c.spec_target() matches RemoteTarget::FixedEndpoint { addr } && addr@
                == self.contact_server@,
            c.spec_request() == bucket,
    {
        Call::new_fixed(
            self.contact_server.clone(),
            bucket,
            FIXED_ENDPOINT_RETRY_BUDGET,
            String::from_str(config::GetBucketRpc::name()),
        )
    }

    /// Starts a `PutBucketRpc` call.
    pub fn put_bucket(&self, bucket: Bucket) -> (c: Call<Bucket>)
        ensures
            c.wf(),
            c.spec_phase() is AwaitingResponse,
            !c.spec_relocated(),
            c.spec_retried_count() == 0,
            c.spec_retry_budget() == FIXED_ENDPOINT_RETRY_BUDGET,
            c.spec_rpc_name()@ == "frugalos.config.bucket.put"@,
            c.spec_target() matches RemoteTarget::FixedEndpoint { addr } && addr@
                == self.contact_server@,
            c.spec_request() == bucket,
    {
        Call::new_fixed(
            self.contact_server.clone(),
            bucket,
            FIXED_ENDPOINT_RETRY_BUDGET,
            String::from_str(config::PutBucketRpc::name()),
        )
    }

    /// Starts a `DeleteBucketRpc` call.
    pub fn delete_bucket(&self, bucket: BucketId) -> (c: Call<BucketId>)
        ensures
            c.wf(),
            c.spec_phase() is AwaitingResponse,
            !c.spec_relocated(),
            c.spec_retried_count() == 0,
            c.spec_retry_budget() == FIXED_ENDPOINT_RETRY_BUDGET,
            c.spec_rpc_name()@ == "frugalos.config.bucket.delete"@,
            c.spec_target() matches RemoteTarget::FixedEndpoint { addr } && addr@
                == self.contact_server@,
            c.spec_request() == bucket,
    {
        Call::new_fixed(
            self.contact_server.clone(),
            bucket,
            FIXED_ENDPOINT_RETRY_BUDGET,
            String::from_str(config::DeleteBucketRpc::name()),
        )
    }

}

} // verus!
