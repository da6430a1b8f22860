//! Tests of the RPC schema and the client facades.
use std::collections::BTreeSet;
use std::time::Duration;

use libfrugalos::client::config as config_client;
use libfrugalos::client::frugalos as frugalos_client;
use libfrugalos::client::mds as mds_client;
use libfrugalos::client::RemoteTarget;
use libfrugalos::client::FIXED_ENDPOINT_RETRY_BUDGET;
use libfrugalos::client::GROUP_NODE_RETRY_BUDGET;
use libfrugalos::consistency::ReadConsistency;
use libfrugalos::entity::node::RemoteNodeId;
use libfrugalos::entity::object::ObjectPrefix;
use libfrugalos::entity::object::ObjectVersion;
use libfrugalos::expect::Expect;
use libfrugalos::multiplicity::MultiplicityConfig;
use libfrugalos::schema::config;
use libfrugalos::schema::frugalos;
use libfrugalos::schema::mds;

#[test]
fn retry_budgets_differ_per_flavor() {
    assert_eq!(FIXED_ENDPOINT_RETRY_BUDGET, 1);
    assert_eq!(GROUP_NODE_RETRY_BUDGET, 2);
}

#[test]
fn config_procedures_keep_their_ids_and_names() {
    assert_eq!(config::ListServersRpc::id(), 0x0002_0000);
    assert_eq!(config::ListServersRpc::name(), "frugalos.config.server.list");
    assert_eq!(config::PutDeviceRpc::id(), 0x0003_0002);
    assert_eq!(config::PutDeviceRpc::name(), "frugalos.config.device.put");
    assert_eq!(config::DeleteBucketRpc::id(), 0x0004_0003);
    assert_eq!(config::DeleteBucketRpc::name(), "frugalos.config.bucket.delete");
    assert_eq!(config::GetLeaderRpc::id(), 0x0005_0000);
    assert_eq!(config::GetLeaderRpc::name(), "frugalos.config.leader.get");
}

#[test]
fn mds_procedures_keep_their_ids_and_names() {
    assert_eq!(mds::GetLeaderRpc::id(), 0x0007_0000);
    assert_eq!(mds::GetLeaderRpc::name(), "frugalos.mds.leader.get");
    assert_eq!(mds::RecommendToLeaderRpc::id(), 0x0007_0001);
    assert_eq!(mds::RecommendToLeaderRpc::name(), "frugalos.mds.leader.recommend");
    assert_eq!(mds::GetObjectRpc::id(), 0x0008_0001);
    assert_eq!(mds::GetObjectRpc::name(), "frugalos.mds.object.get");
    assert_eq!(mds::ListObjectsByPrefixRpc::id(), 0x0008_000a);
    assert_eq!(mds::ListObjectsByPrefixRpc::name(), "frugalos.mds.object.list_by_prefix");
}

#[test]
fn storage_procedures_keep_their_ids_and_names() {
    assert_eq!(frugalos::GetObjectRpc::id(), 0x0009_0000);
    assert_eq!(frugalos::GetObjectRpc::name(), "frugalos.object.get");
    assert_eq!(frugalos::DeleteObjectsByPrefixRpc::id(), 0x0009_0009);
    assert_eq!(frugalos::DeleteObjectsByPrefixRpc::name(), "frugalos.object.delete_by_prefix");
    assert_eq!(frugalos::CountFragmentsRpc::id(), 0x0009_000d);
    assert_eq!(frugalos::CountFragmentsRpc::name(), "frugalos.object.count_fragments");
    assert_eq!(frugalos::StopRpc::id(), 0x000a_0000);
    assert_eq!(frugalos::StopRpc::name(), "frugalos.ctrl.stop");
    assert_eq!(frugalos::SetRepairConfigRpc::id(), 0x000a_0002);
    assert_eq!(frugalos::SetRepairConfigRpc::name(), "frugalos.ctrl.set_repair_config");
}

#[test]
fn mds_facade_embeds_the_node_id_in_every_request() {
    let client = mds_client::Client::new(RemoteNodeId {
        addr: "10.0.0.7:14278".to_string(),
        local_id: "node7".to_string(),
    });
    assert_eq!(client.recommend_to_leader().node_id, "node7");

    let call = client.get_object(
        "obj".to_string(),
        Expect::Any,
        ReadConsistency::Consistent,
    );
    assert_eq!(call.request().node_id, "node7");
    assert_eq!(call.request().object_id, "obj");
    assert_eq!(call.request().consistency, Some(ReadConsistency::Consistent));

    let call = client.put_object(
        "obj".to_string(),
        vec![1, 2, 3],
        Expect::Absent,
        Duration::from_secs(10),
    );
    assert_eq!(call.request().node_id, "node7");
    assert_eq!(call.request().metadata, vec![1, 2, 3]);
    assert_eq!(call.request().put_content_timeout, Duration::from_secs(10));

    let call = client.delete_by_range(ObjectVersion(3)..ObjectVersion(9));
    assert_eq!(call.request().targets, ObjectVersion(3)..ObjectVersion(9));

    let call = client.delete_by_prefix(ObjectPrefix("lv".to_string()));
    assert_eq!(call.request().prefix, ObjectPrefix("lv".to_string()));

    let call = client.object_count(ReadConsistency::Quorum);
    assert_eq!(call.request().consistency, ReadConsistency::Quorum);

    let call = client.latest_version();
    assert_eq!(call.request().node_id, "node7");
}

#[test]
fn config_facade_addresses_the_contact_server() {
    let client = config_client::Client::new("10.0.0.3:14278".to_string());
    let call = client.get_bucket("bucket1".to_string());
    assert!(call.is_awaiting_response());
    assert_eq!(call.request(), "bucket1");
    match call.current_target() {
        RemoteTarget::FixedEndpoint { addr } => assert_eq!(addr, "10.0.0.3:14278"),
        RemoteTarget::GroupNode { .. } => panic!("expected a fixed endpoint"),
    }
    let call = client.list_servers();
    assert!(call.is_awaiting_response());
    assert_eq!(call.retried_count(), 0);
}

#[test]
fn storage_facade_builds_requests_field_by_field() {
    let client = frugalos_client::Client::new("10.0.0.4:14278".to_string());
    assert_eq!(client.server, "10.0.0.4:14278");

    let request = client.get_object(
        "bucket1".to_string(),
        "obj1".to_string(),
        Duration::from_secs(3),
        Expect::Any,
        ReadConsistency::Subset(2),
    );
    assert_eq!(request.bucket_id, "bucket1");
    assert_eq!(request.object_id, "obj1");
    assert_eq!(request.deadline, Duration::from_secs(3));
    assert_eq!(request.consistency, Some(ReadConsistency::Subset(2)));

    let request = client.delete_object(
        "bucket1".to_string(),
        "obj1".to_string(),
        Duration::from_secs(3),
        Expect::Any,
    );
    assert!(request.consistency.is_none());

    let request = client.head_object(
        "bucket1".to_string(),
        "obj1".to_string(),
        Duration::from_secs(3),
        Expect::Any,
        ReadConsistency::Stale,
        true,
    );
    assert!(request.check_storage);

    let request = client.put_object(
        "bucket1".to_string(),
        "obj1".to_string(),
        vec![9, 9],
        Duration::from_secs(3),
        Expect::Any,
        MultiplicityConfig::default(),
    );
    assert_eq!(request.content, vec![9, 9]);

    let request = client.delete_by_range(
        "bucket1".to_string(),
        4,
        ObjectVersion(1)..ObjectVersion(5),
        Duration::from_secs(3),
    );
    assert_eq!(request.segment, 4);
    assert_eq!(request.targets, ObjectVersion(1)..ObjectVersion(5));

    let mut object_ids = BTreeSet::new();
    object_ids.insert("obj1".to_string());
    object_ids.insert("obj2".to_string());
    let request = client.delete_from_device_by_object_ids(
        "bucket1".to_string(),
        "device1".to_string(),
        object_ids.clone(),
    );
    assert_eq!(request.device_id, "device1");
    assert_eq!(request.object_ids, object_ids);

    let request = client.latest_version("bucket1".to_string(), 8);
    assert_eq!(request.segment, 8);
}
