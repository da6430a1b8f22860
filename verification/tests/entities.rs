//! Tests of the entity data model and the supporting value types.
use std::time::Duration;

use libfrugalos::consistency::ReadConsistency;
use libfrugalos::deadline::Deadline;
use libfrugalos::entity::bucket::Bucket;
use libfrugalos::entity::bucket::BucketKind;
use libfrugalos::entity::bucket::DispersedBucket;
use libfrugalos::entity::bucket::MetadataBucket;
use libfrugalos::entity::bucket::ReplicatedBucket;
use libfrugalos::entity::device::decode_segment_allocation_policy;
use libfrugalos::entity::device::encode_segment_allocation_policy;
use libfrugalos::entity::device::SegmentAllocationPolicy;
use libfrugalos::entity::object::ObjectVersion;
use libfrugalos::entity::server::Server;
use libfrugalos::error::classify_transport_error;
use libfrugalos::error::Error;
use libfrugalos::error::ErrorKind;
use libfrugalos::error::TransportErrorKind;
use libfrugalos::expect::Expect;
use libfrugalos::time::Seconds;

fn metadata_bucket(tolerable_faults: u32, segment_count: u32) -> Bucket {
    Bucket::Metadata(MetadataBucket {
        id: "bucket1".to_string(),
        seqno: 0,
        device: "device1".to_string(),
        segment_count,
        tolerable_faults,
    })
}

fn dispersed_bucket(tolerable_faults: u32, data_fragment_count: u32) -> Bucket {
    Bucket::Dispersed(DispersedBucket {
        id: "bucket2".to_string(),
        seqno: 0,
        device: "device2".to_string(),
        segment_count: 0,
        tolerable_faults,
        data_fragment_count,
    })
}

#[test]
fn device_group_size_is_odd_cluster_size() {
    assert_eq!(metadata_bucket(0, 0).device_group_size(), 1);
    assert_eq!(metadata_bucket(1, 0).device_group_size(), 3);
    assert_eq!(metadata_bucket(2, 0).device_group_size(), 5);
    let replicated = Bucket::Replicated(ReplicatedBucket {
        id: "bucket3".to_string(),
        seqno: 0,
        device: "device3".to_string(),
        segment_count: 0,
        tolerable_faults: 3,
    });
    assert_eq!(replicated.device_group_size(), 7);
}

#[test]
fn device_group_size_of_dispersed_takes_fragments_into_account() {
    // raft cluster size 5 vs fragment count 6
    assert_eq!(dispersed_bucket(2, 4).device_group_size(), 6);
    // raft cluster size 5 vs fragment count 3
    assert_eq!(dispersed_bucket(2, 1).device_group_size(), 5);
}

#[test]
fn device_group_size_keeps_the_low_bits_only() {
    // 2 * 128 + 1 == 257, whose low 8 bits are 1
    assert_eq!(metadata_bucket(128, 0).device_group_size(), 1);
}

#[test]
fn fix_segment_count_assigns_five_per_device_for_metadata() {
    let mut bucket = metadata_bucket(1, 0);
    bucket.fix_segment_count(6);
    // 5 * 6 / 3
    assert_eq!(bucket.segment_count(), 10);
}

#[test]
fn fix_segment_count_assigns_ten_per_device_for_dispersed() {
    let mut bucket = dispersed_bucket(2, 4);
    bucket.fix_segment_count(12);
    // 10 * 12 / 6
    assert_eq!(bucket.segment_count(), 20);
}

#[test]
fn fix_segment_count_assigns_at_least_one_segment() {
    let mut bucket = metadata_bucket(1, 0);
    bucket.fix_segment_count(0);
    assert_eq!(bucket.segment_count(), 1);
}

#[test]
fn fix_segment_count_keeps_an_assigned_count() {
    let mut bucket = metadata_bucket(1, 7);
    bucket.fix_segment_count(6);
    assert_eq!(bucket.segment_count(), 7);
}

#[test]
fn bucket_accessors_reach_every_variant() {
    let mut bucket = dispersed_bucket(2, 4);
    assert_eq!(bucket.id(), "bucket2");
    assert_eq!(bucket.device(), "device2");
    assert!(matches!(bucket.kind(), BucketKind::Dispersed));
    assert_eq!(bucket.seqno(), 0);
    bucket.set_seqno(11);
    assert_eq!(bucket.seqno(), 11);
    bucket.set_segment_count(13);
    assert_eq!(bucket.segment_count(), 13);
    let summary = bucket.to_summary();
    assert_eq!(summary.id, "bucket2");
    assert_eq!(summary.device, "device2");
    assert!(matches!(summary.kind, BucketKind::Dispersed));
}

#[test]
fn stored_segment_count_is_exposed_in_sixteen_bits() {
    let bucket = metadata_bucket(1, 0x1_0005);
    assert_eq!(bucket.segment_count(), 5);
}

#[test]
fn default_bucket_is_an_empty_metadata_bucket() {
    let bucket = Bucket::default();
    assert!(matches!(bucket.kind(), BucketKind::Metadata));
    assert_eq!(bucket.id(), "");
    assert_eq!(bucket.seqno(), 0);
    assert_eq!(bucket.segment_count(), 0);
    assert!(matches!(BucketKind::default(), BucketKind::Dispersed));
}

#[test]
fn segment_allocation_policy_round_trips_through_its_wire_number() {
    let policies = vec![
        SegmentAllocationPolicy::ScatterIfPossible,
        SegmentAllocationPolicy::Scatter,
        SegmentAllocationPolicy::Neutral,
        SegmentAllocationPolicy::Gather,
    ];
    for (index, policy) in policies.into_iter().enumerate() {
        let code = encode_segment_allocation_policy(policy);
        assert_eq!(code, index as u32);
        assert_eq!(decode_segment_allocation_policy(code).unwrap(), policy);
    }
    assert!(matches!(
        SegmentAllocationPolicy::default(),
        SegmentAllocationPolicy::ScatterIfPossible
    ));
}

#[test]
fn unknown_segment_allocation_policy_is_invalid_input() {
    let decoded = decode_segment_allocation_policy(7);
    match decoded {
        Err(e) => assert_eq!(e.kind, ErrorKind::InvalidInput),
        Ok(_) => panic!("expected invalid input"),
    }
}

#[test]
fn transport_failures_map_into_their_domain_classes() {
    assert_eq!(
        classify_transport_error(TransportErrorKind::InvalidInput),
        ErrorKind::InvalidInput
    );
    assert_eq!(
        classify_transport_error(TransportErrorKind::Unavailable),
        ErrorKind::Unavailable
    );
    assert_eq!(classify_transport_error(TransportErrorKind::Timeout), ErrorKind::Timeout);
    assert_eq!(classify_transport_error(TransportErrorKind::Other), ErrorKind::Other);
}

#[test]
fn rpc_annotation_keeps_the_kind_and_extends_the_message() {
    let annotated = Error::new(ErrorKind::Other, "boom".to_string())
        .with_rpc_name("frugalos.object.get");
    assert_eq!(annotated.kind, ErrorKind::Other);
    assert_eq!(annotated.message, "boom (RPC=frugalos.object.get)");
    let unstable = Error::unstable_cluster("frugalos.object.get");
    assert_eq!(unstable.kind, ErrorKind::Unavailable);
    assert_eq!(unstable.message, "Unstable cluster: RPC=frugalos.object.get");
}

#[test]
fn expect_any_accepts_everything() {
    assert!(Expect::Any.validate(None).is_ok());
    assert!(Expect::Any.validate(Some(ObjectVersion(4))).is_ok());
    assert!(matches!(Expect::default(), Expect::Any));
}

#[test]
fn expect_absent_accepts_only_a_missing_object() {
    assert!(Expect::Absent.validate(None).is_ok());
    let rejected = Expect::Absent.validate(Some(ObjectVersion(4)));
    match rejected {
        Err(e) => assert_eq!(e.kind, ErrorKind::Unexpected(Some(ObjectVersion(4)))),
        Ok(()) => panic!("expected rejection"),
    }
}

#[test]
fn expect_if_match_accepts_any_listed_version() {
    let expect = Expect::IfMatch(vec![ObjectVersion(2), ObjectVersion(3)]);
    assert!(expect.validate(Some(ObjectVersion(3))).is_ok());
    assert!(expect.validate(Some(ObjectVersion(4))).is_err());
    assert!(expect.validate(None).is_err());
    let empty = Expect::IfMatch(vec![]);
    assert!(empty.validate(Some(ObjectVersion(1))).is_err());
}

#[test]
fn expect_if_none_match_rejects_every_listed_version() {
    let expect = Expect::IfNoneMatch(vec![ObjectVersion(2)]);
    assert!(expect.validate(Some(ObjectVersion(5))).is_ok());
    assert!(expect.validate(None).is_ok());
    let rejected = expect.validate(Some(ObjectVersion(2)));
    match rejected {
        Err(e) => assert_eq!(e.kind, ErrorKind::Unexpected(Some(ObjectVersion(2)))),
        Ok(()) => panic!("expected rejection"),
    }
}

#[test]
fn deadline_keeps_its_duration() {
    let deadline = Deadline::new(Duration::from_millis(1500));
    assert_eq!(deadline.as_duration(), Duration::from_millis(1500));
}

#[test]
fn seconds_order_follows_the_value() {
    assert!(Seconds(2) < Seconds(3));
    assert_eq!(Seconds(2), Seconds(2));
}

#[test]
fn servers_summarize_to_their_id() {
    let server = Server::new("server1".to_string(), "192.168.0.1".to_string(), 14278);
    assert_eq!(server.seqno, 0);
    assert_eq!(server.to_summary().id, "server1");
    let fallback = Server::default();
    assert_eq!(fallback.id, "");
    assert_eq!(fallback.host, "0.0.0.0");
    assert_eq!(fallback.port, 0);
}

#[test]
fn object_versions_order_by_number() {
    assert!(ObjectVersion(1) < ObjectVersion(2));
    assert_eq!(ObjectVersion(2), ObjectVersion(2));
}
