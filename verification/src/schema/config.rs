//! Schema of the configuration-management RPCs: the procedure ids and
//! names that the deployed cluster knows. An id is never reused; an
//! incompatible change gets a new id, so that old and new can coexist
//! during a rolling upgrade.
use vstd::prelude::*;

verus! {

/// Lists the servers of the cluster.
#[derive(Debug)]
pub struct ListServersRpc;

impl ListServersRpc {
    /// The procedure id of this RPC.
    pub fn id() -> (id: u64)
        ensures
            id == 0x0002_0000u64,
    {
        0x0002_0000
    }

    /// The procedure name of this RPC, as failures are annotated with it.
    pub fn name() -> (name: &'static str)
        ensures
            name@ == "frugalos.config.server.list"@,
    {
        "frugalos.config.server.list"
    }
}

/// Fetches one server.
#[derive(Debug)]
pub struct GetServerRpc;

impl GetServerRpc {
    /// The procedure id of this RPC.
    pub fn id() -> (id: u64)
        ensures
            id == 0x0002_0001u64,
    {
        0x0002_0001
    }

    /// The procedure name of this RPC, as failures are annotated with it.
    pub fn name() -> (name: &'static str)
        ensures
            name@ == "frugalos.config.server.get"@,
    {
        "frugalos.config.server.get"
    }
}

/// Registers or updates a server.
#[derive(Debug)]
pub struct PutServerRpc;

impl PutServerRpc {
    /// The procedure id of this RPC.
    pub fn id() -> (id: u64)
        ensures
            id == 0x0002_0002u64,
    {
        0x0002_0002
    }

    /// The procedure name of this RPC, as failures are annotated with it.
    pub fn name() -> (name: &'static str)
        ensures
            name@ == "frugalos.config.server.put"@,
    {
        "frugalos.config.server.put"
    }
}

/// Deletes a server.
#[derive(Debug)]
pub struct DeleteServerRpc;

impl DeleteServerRpc {
    /// The procedure id of this RPC.
    pub fn id() -> (id: u64)
        ensures
            id == 0x0002_0003u64,
    {
        0x0002_0003
    }

    /// The procedure name of this RPC, as failures are annotated with it.
    pub fn name() -> (name: &'static str)
        ensures
            name@ == "frugalos.config.server.delete"@,
    {
        "frugalos.config.server.delete"
    }
}

/// Lists the devices of the cluster.
#[derive(Debug)]
pub struct ListDevicesRpc;

impl ListDevicesRpc {
    /// The procedure id of this RPC.
    pub fn id() -> (id: u64)
        ensures
            id == 0x0003_0000u64,
    {
        0x0003_0000
    }

    /// The procedure name of this RPC, as failures are annotated with it.
    pub fn name() -> (name: &'static str)
        ensures
            name@ == "frugalos.config.device.list"@,
    {
        "frugalos.config.device.list"
    }
}

/// Fetches one device.
#[derive(Debug)]
pub struct GetDeviceRpc;

impl GetDeviceRpc {
    /// The procedure id of this RPC.
    pub fn id() -> (id: u64)
        ensures
            id == 0x0003_0001u64,
    {
        0x0003_0001
    }

    /// The procedure name of this RPC, as failures are annotated with it.
    pub fn name() -> (name: &'static str)
        ensures
            name@ == "frugalos.config.device.get"@,
    {
        "frugalos.config.device.get"
    }
}

/// Registers or updates a device.
#[derive(Debug)]
pub struct PutDeviceRpc;

impl PutDeviceRpc {
    /// The procedure id of this RPC.
    pub fn id() -> (id: u64)
        ensures
            id == 0x0003_0002u64,
    {
        0x0003_0002
    }

    /// The procedure name of this RPC, as failures are annotated with it.
    pub fn name() -> (name: &'static str)
        ensures
            name@ == "frugalos.config.device.put"@,
    {
        "frugalos.config.device.put"
    }
}

/// Deletes a device.
#[derive(Debug)]
pub struct DeleteDeviceRpc;

impl DeleteDeviceRpc {
    /// The procedure id of this RPC.
    pub fn id() -> (id: u64)
        ensures
            id == 0x0003_0003u64,
    {
        0x0003_0003
    }

    /// The procedure name of this RPC, as failures are annotated with it.
    pub fn name() -> (name: &'static str)
        ensures
            name@ == "frugalos.config.device.delete"@,
    {
        "frugalos.config.device.delete"
    }
}

/// Lists the buckets of the cluster.
#[derive(Debug)]
pub struct ListBucketsRpc;

impl ListBucketsRpc {
    /// The procedure id of this RPC.
    pub fn id() -> (id: u64)
        ensures
            id == 0x0004_0000u64,
    {
        0x0004_0000
    }

    /// The procedure name of this RPC, as failures are annotated with it.
    pub fn name() -> (name: &'static str)
        ensures
            name@ == "frugalos.config.bucket.list"@,
    {
        "frugalos.config.bucket.list"
    }
}

/// Fetches one bucket.
#[derive(Debug)]
pub struct GetBucketRpc;

impl GetBucketRpc {
    /// The procedure id of this RPC.
    pub fn id() -> (id: u64)
        ensures
            id == 0x0004_0001u64,
    {
        0x0004_0001
    }

    /// The procedure name of this RPC, as failures are annotated with it.
    pub fn name() -> (name: &'static str)
        ensures
            name@ == "frugalos.config.bucket.get"@,
    {
        "frugalos.config.bucket.get"
    }
}

/// Registers or updates a bucket.
#[derive(Debug)]
pub struct PutBucketRpc;

impl PutBucketRpc {
    /// The procedure id of this RPC.
    pub fn id() -> (id: u64)
        ensures
            id == 0x0004_0002u64,
    {
        0x0004_0002
    }

    /// The procedure name of this RPC, as failures are annotated with it.
    pub fn name() -> (name: &'static str)
        ensures
            name@ == "frugalos.config.bucket.put"@,
    {
        "frugalos.config.bucket.put"
    }
}

/// Deletes a bucket.
#[derive(Debug)]
pub struct DeleteBucketRpc;

impl DeleteBucketRpc {
    /// The procedure id of this RPC.
    pub fn id() -> (id: u64)
        ensures
            id == 0x0004_0003u64,
    {
        0x0004_0003
    }

    /// The procedure name of this RPC, as failures are annotated with it.
    pub fn name() -> (name: &'static str)
        ensures
            name@ == "frugalos.config.bucket.delete"@,
    {
        "frugalos.config.bucket.delete"
    }
}

/// Asks a member for the current cluster-wide leader's address.
#[derive(Debug)]
pub struct GetLeaderRpc;

impl GetLeaderRpc {
    /// The procedure id of this RPC.
    pub fn id() -> (id: u64)
        ensures
            id == 0x0005_0000u64,
    {
        0x0005_0000
    }

    /// The procedure name of this RPC, as failures are annotated with it.
    pub fn name() -> (name: &'static str)
        ensures
            name@ == "frugalos.config.leader.get"@,
    {
        "frugalos.config.leader.get"
    }
}

} // verus!
