//! Scenario tests for the leader-tracking call protocol.
use libfrugalos::client::mds;
use libfrugalos::client::Call;
use libfrugalos::client::CallOutcome;
use libfrugalos::client::LookupStep;
use libfrugalos::client::RemoteTarget;
use libfrugalos::client::ResponseStep;
use libfrugalos::client::run_fixed_call;
use libfrugalos::client::run_group_call;
use libfrugalos::entity::node::RemoteNodeId;
use libfrugalos::entity::object::ObjectVersion;
use libfrugalos::error::Error;
use libfrugalos::error::ErrorKind;
use libfrugalos::expect::Expect;
use libfrugalos::schema::mds as mds_schema;

fn node(addr: &str, id: &str) -> RemoteNodeId {
    RemoteNodeId { addr: addr.to_string(), local_id: id.to_string() }
}

fn not_leader() -> Error {
    Error::new(ErrorKind::NotLeader, "not the leader".to_string())
}

#[test]
fn first_dispatch_success_needs_no_lookup() {
    let t1 = node("10.0.0.1:14278", "node1");
    let responses: Vec<Result<u32, Error>> = vec![Ok(42)];
    let lookups: Vec<Result<RemoteNodeId, Error>> = vec![];
    let (outcome, lookups_used) = run_group_call(
        t1,
        "node1".to_string(),
        2,
        "frugalos.mds.object.get".to_string(),
        responses,
        lookups,
    );
    match outcome {
        CallOutcome::Success { value, rediscovered } => {
            assert_eq!(value, 42);
            assert!(rediscovered.is_none());
        }
        CallOutcome::Failure { .. } => panic!("expected success"),
    }
    assert_eq!(lookups_used, 0);
}

#[test]
fn one_redirect_within_budget_succeeds_and_reports_target() {
    let t1 = node("10.0.0.1:14278", "node1");
    let t2 = node("10.0.0.2:14278", "node2");
    let responses: Vec<Result<u32, Error>> = vec![Err(not_leader()), Ok(7)];
    let lookups = vec![Ok(t2)];
    let (outcome, lookups_used) = run_group_call(
        t1,
        "node1".to_string(),
        1,
        "frugalos.mds.object.get".to_string(),
        responses,
        lookups,
    );
    match outcome {
        CallOutcome::Success { value, rediscovered } => {
            assert_eq!(value, 7);
            match rediscovered {
                Some(RemoteTarget::GroupNode { addr, local_node_id }) => {
                    assert_eq!(addr, "10.0.0.2:14278");
                    assert_eq!(local_node_id, "node2");
                }
                _ => panic!("expected a rediscovered group node"),
            }
        }
        CallOutcome::Failure { .. } => panic!("expected success"),
    }
    assert_eq!(lookups_used, 1);
}

#[test]
fn two_redirects_within_budget_succeed_and_report_last_target() {
    let t1 = node("10.0.0.1:14278", "node1");
    let t2 = node("10.0.0.2:14278", "node2");
    let t3 = node("10.0.0.3:14278", "node3");
    let responses: Vec<Result<u32, Error>> = vec![Err(not_leader()), Err(not_leader()), Ok(9)];
    let lookups = vec![Ok(t2), Ok(t3)];
    let (outcome, lookups_used) = run_group_call(
        t1,
        "node1".to_string(),
        2,
        "frugalos.mds.object.put".to_string(),
        responses,
        lookups,
    );
    match outcome {
        CallOutcome::Success { value, rediscovered } => {
            assert_eq!(value, 9);
            match rediscovered {
                Some(RemoteTarget::GroupNode { addr, local_node_id }) => {
                    assert_eq!(addr, "10.0.0.3:14278");
                    assert_eq!(local_node_id, "node3");
                }
                _ => panic!("expected a rediscovered group node"),
            }
        }
        CallOutcome::Failure { .. } => panic!("expected success"),
    }
    assert_eq!(lookups_used, 2);
}

#[test]
fn exhausted_budget_fails_as_unavailable() {
    let t1 = node("10.0.0.1:14278", "node1");
    let t2 = node("10.0.0.2:14278", "node2");
    let responses: Vec<Result<u32, Error>> = vec![Err(not_leader()), Err(not_leader())];
    let lookups = vec![Ok(t2)];
    let (outcome, lookups_used) = run_group_call(
        t1,
        "node1".to_string(),
        1,
        "frugalos.mds.object.get".to_string(),
        responses,
        lookups,
    );
    match outcome {
        CallOutcome::Failure { error } => {
            assert_eq!(error.kind, ErrorKind::Unavailable);
            assert_eq!(error.message, "Unstable cluster: RPC=frugalos.mds.object.get");
        }
        CallOutcome::Success { .. } => panic!("expected failure"),
    }
    assert_eq!(lookups_used, 1);
}

#[test]
fn timeout_fails_immediately_with_zero_lookups() {
    let t1 = node("10.0.0.1:14278", "node1");
    let timeout = Error::new(ErrorKind::Timeout, "deadline exceeded".to_string());
    let responses: Vec<Result<u32, Error>> = vec![Err(timeout)];
    let lookups: Vec<Result<RemoteNodeId, Error>> = vec![];
    let (outcome, lookups_used) = run_group_call(
        t1,
        "node1".to_string(),
        2,
        "frugalos.mds.object.get".to_string(),
        responses,
        lookups,
    );
    match outcome {
        CallOutcome::Failure { error } => {
            assert_eq!(error.kind, ErrorKind::Timeout);
            assert_eq!(error.message, "deadline exceeded (RPC=frugalos.mds.object.get)");
        }
        CallOutcome::Success { .. } => panic!("expected failure"),
    }
    assert_eq!(lookups_used, 0);
}

#[test]
fn cas_conflict_fails_immediately_with_actual_version() {
    let expect = Expect::IfMatch(vec![ObjectVersion(1)]);
    let validation = expect.validate(Some(ObjectVersion(2)));
    let conflict = match validation {
        Err(e) => e,
        Ok(()) => panic!("expected the expectation to fail"),
    };
    assert_eq!(conflict.kind, ErrorKind::Unexpected(Some(ObjectVersion(2))));

    let t1 = node("10.0.0.1:14278", "node1");
    let responses: Vec<Result<u32, Error>> = vec![Err(conflict)];
    let lookups: Vec<Result<RemoteNodeId, Error>> = vec![];
    let (outcome, lookups_used) = run_group_call(
        t1,
        "node1".to_string(),
        2,
        "frugalos.mds.object.put".to_string(),
        responses,
        lookups,
    );
    match outcome {
        CallOutcome::Failure { error } => {
            assert_eq!(error.kind, ErrorKind::Unexpected(Some(ObjectVersion(2))));
        }
        CallOutcome::Success { .. } => panic!("expected failure"),
    }
    assert_eq!(lookups_used, 0);
}

#[test]
fn lookup_failure_propagates_as_is() {
    let t1 = node("10.0.0.1:14278", "node1");
    let lookup_error = Error::new(ErrorKind::Unavailable, "lookup target unreachable".to_string());
    let responses: Vec<Result<u32, Error>> = vec![Err(not_leader())];
    let lookups: Vec<Result<RemoteNodeId, Error>> = vec![Err(lookup_error)];
    let (outcome, lookups_used) = run_group_call(
        t1,
        "node1".to_string(),
        2,
        "frugalos.mds.object.get".to_string(),
        responses,
        lookups,
    );
    match outcome {
        CallOutcome::Failure { error } => {
            assert_eq!(error.kind, ErrorKind::Unavailable);
            assert_eq!(error.message, "lookup target unreachable");
        }
        CallOutcome::Success { .. } => panic!("expected failure"),
    }
    assert_eq!(lookups_used, 1);
}

#[test]
fn relocation_rewrites_request_node_id() {
    let t1 = node("10.0.0.1:14278", "node1");
    let request = mds_schema::ObjectRequest {
        node_id: "node1".to_string(),
        object_id: "lv00".to_string(),
        expect: Expect::Any,
        consistency: None,
    };
    let mut call = Call::new_group(t1, request, 2, "frugalos.mds.object.delete".to_string());
    assert!(call.is_awaiting_response());

    let step: ResponseStep<u32> = call.on_response(Err(not_leader()));
    assert!(matches!(step, ResponseStep::LocateLeader));
    assert!(call.is_locating_leader());
    assert_eq!(call.retried_count(), 1);

    let t2 = node("10.0.0.2:14278", "node2");
    let step: LookupStep<u32> = call.on_leader_located(Ok(t2));
    assert!(matches!(step, LookupStep::Redispatch));
    assert!(call.is_awaiting_response());
    assert_eq!(call.request().node_id, "node2");
    match call.current_target() {
        RemoteTarget::GroupNode { addr, local_node_id } => {
            assert_eq!(addr, "10.0.0.2:14278");
            assert_eq!(local_node_id, "node2");
        }
        RemoteTarget::FixedEndpoint { .. } => panic!("expected a group target"),
    }
}

#[test]
fn fixed_call_succeeds_without_reporting_rediscovery() {
    let responses: Vec<Result<String, Error>> = vec![
        Err(not_leader()),
        Ok("answer".to_string()),
    ];
    let lookups: Vec<Result<String, Error>> = vec![Ok("10.0.0.9:14278".to_string())];
    let (outcome, lookups_used) = run_fixed_call(
        "10.0.0.1:14278".to_string(),
        "frugalos".to_string(),
        1,
        "frugalos.config.bucket.get".to_string(),
        responses,
        lookups,
    );
    match outcome {
        CallOutcome::Success { value, rediscovered } => {
            assert_eq!(value, "answer");
            assert!(rediscovered.is_none());
        }
        CallOutcome::Failure { .. } => panic!("expected success"),
    }
    assert_eq!(lookups_used, 1);
}

#[test]
fn fixed_call_exhausts_its_smaller_budget() {
    let responses: Vec<Result<String, Error>> = vec![Err(not_leader()), Err(not_leader())];
    let lookups: Vec<Result<String, Error>> = vec![Ok("10.0.0.9:14278".to_string())];
    let (outcome, lookups_used) = run_fixed_call(
        "10.0.0.1:14278".to_string(),
        "frugalos".to_string(),
        1,
        "frugalos.config.bucket.list".to_string(),
        responses,
        lookups,
    );
    match outcome {
        CallOutcome::Failure { error } => {
            assert_eq!(error.kind, ErrorKind::Unavailable);
            assert_eq!(error.message, "Unstable cluster: RPC=frugalos.config.bucket.list");
        }
        CallOutcome::Success { .. } => panic!("expected failure"),
    }
    assert_eq!(lookups_used, 1);
}

#[test]
fn facade_call_starts_optimistically_at_the_held_node() {
    let client = mds::Client::new(node("10.0.0.5:14278", "node5"));
    let call = client.delete_object(
        "obj1".to_string(),
        Expect::IfMatch(vec![ObjectVersion(3)]),
    );
    assert!(call.is_awaiting_response());
    assert_eq!(call.retried_count(), 0);
    assert_eq!(call.request().node_id, "node5");
    assert_eq!(call.request().object_id, "obj1");
    assert!(call.request().consistency.is_none());
    match call.current_target() {
        RemoteTarget::GroupNode { addr, local_node_id } => {
            assert_eq!(addr, "10.0.0.5:14278");
            assert_eq!(local_node_id, "node5");
        }
        RemoteTarget::FixedEndpoint { .. } => panic!("expected a group target"),
    }
}
