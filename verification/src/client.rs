//! The leader-tracking call protocol.
//!
//! A logical RPC invocation against a leader-based cluster cannot assume
//! that the address it holds still points at the leader: an election may
//! have moved leadership at any time. The [`Call`] state machine below
//! turns one invocation into a bounded sequence of network operations:
//!
//! 1. dispatch optimistically to the currently held target;
//! 2. classify a failure; only `NotLeader` is retryable;
//! 3. within the retry budget, look the leader up and dispatch again,
//!    patching the request's embedded node id where it has one;
//! 4. past the budget, fail with `Unavailable`, naming the RPC.
//!
//! The machine makes the decisions; it performs no I/O itself. Its driver
//! performs each dispatch and lookup and feeds the result back in. The
//! whole protocol, as a function of those results, is captured by
//! [`call_verdict`], and [`run_group_call`] / [`run_fixed_call`] replay a
//! call deterministically from recorded results.
use vstd::prelude::*;

use crate::entity::node::LocalNodeId;
use crate::entity::node::RemoteNodeId;
use crate::error::rpc_annotated_message;
use crate::error::unstable_cluster_message;
use crate::error::Error;
use crate::error::ErrorKind;

pub mod config;
pub mod frugalos;
pub mod mds;

verus! {

/// Retry budget of a fixed-endpoint call: one extra attempt accounts for a
/// single in-flight election.
pub const FIXED_ENDPOINT_RETRY_BUDGET: usize = 1;

/// Retry budget of a group-addressed call: a second extra attempt covers a
/// double-redirect race during a fast re-election.
pub const GROUP_NODE_RETRY_BUDGET: usize = 2;

/// Where a request is sent: a single cluster-wide leader, or one node of a
/// replicated group, identified additionally by its process-local id.
#[derive(Debug)]
pub enum RemoteTarget {
    /// A single cluster-wide endpoint.
    FixedEndpoint {
        /// Textual transport address.
        addr: String,
    },
    /// One node of a replicated group.
    GroupNode {
        /// Textual transport address of the hosting process.
        addr: String,
        /// Process-local id of the node.
        local_node_id: LocalNodeId,
    },
}

/// The abstract value of a [`RemoteTarget`]: its strings as character
/// sequences.
pub enum RemoteTargetView {
    /// A single cluster-wide endpoint.
    FixedEndpoint {
        /// Textual transport address.
        addr: Seq<char>,
    },
    /// One node of a replicated group.
    GroupNode {
        /// Textual transport address of the hosting process.
        addr: Seq<char>,
        /// Process-local id of the node.
        local_node_id: Seq<char>,
    },
}

impl View for RemoteTarget {
    type V = RemoteTargetView;

    open spec fn view(&self) -> RemoteTargetView {
        match self {
            RemoteTarget::FixedEndpoint { addr } => RemoteTargetView::FixedEndpoint {
                addr: addr@,
            },
            RemoteTarget::GroupNode { addr, local_node_id } => RemoteTargetView::GroupNode {
                addr: addr@,
                local_node_id: local_node_id@,
            },
        }
    }
}

impl RemoteTarget {
    /// The transport address of the target.
    pub open spec fn spec_addr(&self) -> String {
        match self {
            RemoteTarget::FixedEndpoint { addr } => *addr,
            RemoteTarget::GroupNode { addr, .. } => *addr,
        }
    }

    /// Returns the transport address to dispatch to.
    pub fn addr(&self) -> (a: &String)
        ensures
            *a == self.spec_addr(),
    {
        match self {
            RemoteTarget::FixedEndpoint { addr } => addr,
            RemoteTarget::GroupNode { addr, .. } => addr,
        }
    }
}

/// The capability of a request to have its embedded node id rewritten.
///
/// Every request type used with a group-addressed call embeds the id of
/// the node it is meant for; after a leader relocation the orchestrator
/// patches it to the newly discovered node's id before resending. The
/// capability is a compile-time bound, so a redirected request can never
/// be resent unpatched.
pub trait SetNodeId: Sized {
    /// The embedded node id, as the sequence of its characters.
    spec fn node_id_view(&self) -> Seq<char>;

    /// Rewrites the embedded node id.
    fn set_node_id(&mut self, node_id: LocalNodeId)
        ensures
            final(self).node_id_view() == node_id@,
    ;
}

impl SetNodeId for LocalNodeId {
    open spec fn node_id_view(&self) -> Seq<char> {
        self@
    }

    fn set_node_id(&mut self, node_id: LocalNodeId) {
        *self = node_id;
    }
}

/// How a finished call ended.
#[derive(Debug)]
pub enum CallOutcome<V> {
    /// The call succeeded. When leader discovery occurred during the call
    /// of a group-addressed target, `rediscovered` carries the fresh
    /// target, so the caller can update its own cache before its next
    /// call.
    Success {
        /// The value the leader answered with.
        value: V,
        /// The freshly discovered target, if discovery occurred and the
        /// call flavor reports it.
        rediscovered: Option<RemoteTarget>,
    },
    /// The call failed; the error says how.
    Failure {
        /// The failure, classified and annotated with the RPC's name.
        error: Error,
    },
}

/// What the driver of a call has to do after feeding in a response.
#[derive(Debug)]
pub enum ResponseStep<V> {
    /// The call is finished with this outcome.
    Done(CallOutcome<V>),
    /// The driver must look the leader up at the current target's address
    /// and feed the answer to the machine.
    LocateLeader,
}

/// What the driver of a call has to do after feeding in a leader lookup
/// answer.
#[derive(Debug)]
pub enum LookupStep<V> {
    /// The call is finished with this outcome.
    Done(CallOutcome<V>),
    /// The driver must dispatch the request once more, to the machine's
    /// new current target.
    Redispatch,
}

/// The control state of a call.
#[derive(Debug, Clone, Copy, PartialEq, Eq, Structural)]
pub enum CallPhase {
    /// The request has been handed out for dispatch; the machine waits for
    /// the transport's answer.
    AwaitingResponse,
    /// A leader lookup is in flight; the machine waits for its answer.
    LocatingLeader,
    /// The call is finished.
    Done,
}

/// One logical RPC invocation in flight: the call orchestrator.
///
/// A fresh orchestrator is created per invocation and discarded with it;
/// it carries no state across calls. It is created already dispatching:
/// the driver sends the request to [`Call::current_target`] right away and
/// feeds the transport's answer to [`Call::on_response`].
#[derive(Debug)]
pub struct Call<R> {
    target: RemoteTarget,
    request: R,
    retry_budget: usize,
    retried_count: usize,
    relocated: bool,
    phase: CallPhase,
    rpc_name: String,
}

impl<R> Call<R> {
    /// The current target of the call.
    pub closed spec fn spec_target(&self) -> RemoteTarget {
        self.target
    }

    /// The request, with its node id as last patched.
    pub closed spec fn spec_request(&self) -> R {
        self.request
    }

    /// How many `NotLeader` redirects the call may take at most.
    pub closed spec fn spec_retry_budget(&self) -> usize {
        self.retry_budget
    }

    /// How many leader lookups have been started.
    pub closed spec fn spec_retried_count(&self) -> usize {
        self.retried_count
    }

    /// Whether a leader lookup has succeeded during this call.
    pub closed spec fn spec_relocated(&self) -> bool {
        self.relocated
    }

    /// The control state.
    pub closed spec fn spec_phase(&self) -> CallPhase {
        self.phase
    }

    /// The name of the RPC, used to annotate failures.
    pub closed spec fn spec_rpc_name(&self) -> String {
        self.rpc_name
    }

    /// The redirect count never exceeds the budget.
    pub closed spec fn wf(&self) -> bool {
        self.retried_count <= self.retry_budget
    }

    /// Creates a call against a fixed endpoint, already dispatching.
    pub fn new_fixed(addr: String, request: R, retry_budget: usize, rpc_name: String) -> (c: Self)
        ensures
            c.wf(),
            c.spec_target() matches RemoteTarget::FixedEndpoint { addr: a } && a == addr,
            c.spec_request() == request,
            c.spec_retry_budget() == retry_budget,
            c.spec_retried_count() == 0,
            !c.spec_relocated(),
            c.spec_phase() is AwaitingResponse,
            c.spec_rpc_name() == rpc_name,
    {
        Call {
            target: RemoteTarget::FixedEndpoint { addr },
            request,
            retry_budget,
            retried_count: 0,
            relocated: false,
            phase: CallPhase::AwaitingResponse,
            rpc_name,
        }
    }

    /// Returns the target the request is currently addressed to.
    pub fn current_target(&self) -> (t: &RemoteTarget)
        ensures
            *t == self.spec_target(),
    {
        &self.target
    }

    /// Returns the request, with its node id as last patched.
    pub fn request(&self) -> (r: &R)
        ensures
            *r == self.spec_request(),
    {
        &self.request
    }

    /// Returns how many leader lookups have been started.
    pub fn retried_count(&self) -> (n: usize)
        ensures
            n == self.spec_retried_count(),
    {
        self.retried_count
    }

    /// Whether the machine waits for a transport answer.
    pub fn is_awaiting_response(&self) -> (b: bool)
        ensures
            b == (self.spec_phase() is AwaitingResponse),
    {
        matches!(self.phase, CallPhase::AwaitingResponse)
    }

    /// Whether the machine waits for a leader lookup answer.
    pub fn is_locating_leader(&self) -> (b: bool)
        ensures
            b == (self.spec_phase() is LocatingLeader),
    {
        matches!(self.phase, CallPhase::LocatingLeader)
    }

    /// Whether the call is finished.
    pub fn is_done(&self) -> (b: bool)
        ensures
            b == (self.spec_phase() is Done),
    {
        matches!(self.phase, CallPhase::Done)
    }

    /// Feeds the answer of the pending dispatch into the machine.
    ///
    /// A success finishes the call, reporting the rediscovered target when
    /// the call of a group-addressed target relocated the leader earlier.
    /// A failure other than `NotLeader` finishes the call immediately and
    /// unmodified, annotated with the RPC's name. A `NotLeader` failure
    /// within the budget asks the driver for a leader lookup; past the
    /// budget it finishes the call as `Unavailable`, signaling an unstable
    /// cluster.
    pub fn on_response<V>(&mut self, result: Result<V, Error>) -> (step: ResponseStep<V>)
        requires
            old(self).wf(),
            old(self).spec_phase() is AwaitingResponse,
        ensures
            final(self).wf(),
            final(self).spec_target() == old(self).spec_target(),
            final(self).spec_request() == old(self).spec_request(),
            final(self).spec_retry_budget() == old(self).spec_retry_budget(),
            final(self).spec_rpc_name() == old(self).spec_rpc_name(),
            final(self).spec_relocated() == old(self).spec_relocated(),
            match result {
                Ok(value) => {
                    &&& final(self).spec_phase() is Done
                    &&& final(self).spec_retried_count() == old(self).spec_retried_count()
                    &&& step matches ResponseStep::Done(outcome) && (outcome matches
                        CallOutcome::Success { value: v, rediscovered } && v == value && (if old(
                        self,
                    ).spec_relocated() && old(self).spec_target() is GroupNode {
                        rediscovered matches Some(t) && t is GroupNode && t@ == old(
                            self,
                        ).spec_target()@
                    } else {
                        rediscovered is None
                    }))
                },
                Err(e) => {
                    if !(e.kind is NotLeader) {
                        &&& final(self).spec_phase() is Done
                        &&& final(self).spec_retried_count() == old(self).spec_retried_count()
                        &&& step matches ResponseStep::Done(outcome) && (outcome matches
                            CallOutcome::Failure { error } && error.kind == e.kind
                            && error.message@ == rpc_annotated_message(
                            e.message@,
                            old(self).spec_rpc_name()@,
                        ))
                    } else if old(self).spec_retried_count() >= old(self).spec_retry_budget() {
                        &&& final(self).spec_phase() is Done
                        &&& final(self).spec_retried_count() == old(self).spec_retried_count()
                        &&& step matches ResponseStep::Done(outcome) && (outcome matches
                            CallOutcome::Failure { error } && error.kind == ErrorKind::Unavailable
                            && error.message@ == unstable_cluster_message(
                            old(self).spec_rpc_name()@,
                        ))
                    } else {
                        &&& final(self).spec_phase() is LocatingLeader
                        &&& final(self).spec_retried_count() == old(self).spec_retried_count() + 1
                        &&& step is LocateLeader
                    }
                },
            },
    {
        match result {
            Ok(value) => {
                let rediscovered: Option<RemoteTarget> = if self.relocated {
                    match &self.target {
                        RemoteTarget::GroupNode { addr, local_node_id } => Some(
                            RemoteTarget::GroupNode {
                                addr: addr.clone(),
                                local_node_id: local_node_id.clone(),
                            },
                        ),
                        RemoteTarget::FixedEndpoint { .. } => None,
                    }
                } else {
                    None
                };
                self.phase = CallPhase::Done;
                ResponseStep::Done(CallOutcome::Success { value, rediscovered })
            },
            Err(e) => {
                match e.kind {
                    ErrorKind::NotLeader => {
                        if self.retried_count >= self.retry_budget {
                            self.phase = CallPhase::Done;
                            ResponseStep::Done(
                                CallOutcome::Failure {
                                    error: Error::unstable_cluster(self.rpc_name.as_str()),
                                },
                            )
                        } else {
                            self.retried_count = self.retried_count + 1;
                            self.phase = CallPhase::LocatingLeader;
                            ResponseStep::LocateLeader
                        }
                    },
                    _ => {
                        self.phase = CallPhase::Done;
                        ResponseStep::Done(
                            CallOutcome::Failure {
                                error: e.with_rpc_name(self.rpc_name.as_str()),
                            },
                        )
                    },
                }
            },
        }
    }

    /// Feeds the answer of a leader lookup into a fixed-endpoint call.
    ///
    /// A discovered address replaces the current target, and the driver
    /// must dispatch again. A lookup failure finishes the call with that
    /// failure, exactly as it came: a lookup failure is never
    /// reinterpreted as `NotLeader`.
    pub fn on_leader_located_fixed<V>(&mut self, result: Result<String, Error>) -> (step: LookupStep<
        V,
    >)
        requires
            old(self).wf(),
            old(self).spec_phase() is LocatingLeader,
            old(self).spec_target() is FixedEndpoint,
        ensures
            final(self).wf(),
            final(self).spec_request() == old(self).spec_request(),
            final(self).spec_retry_budget() == old(self).spec_retry_budget(),
            final(self).spec_retried_count() == old(self).spec_retried_count(),
            final(self).spec_rpc_name() == old(self).spec_rpc_name(),
            match result {
                Ok(addr) => {
                    &&& final(self).spec_phase() is AwaitingResponse
                    &&& final(self).spec_relocated()
                    &&& final(self).spec_target() matches RemoteTarget::FixedEndpoint { addr: a } && a
                        == addr
                    &&& step is Redispatch
                },
                Err(e) => {
                    &&& final(self).spec_phase() is Done
                    &&& final(self).spec_relocated() == old(self).spec_relocated()
                    &&& final(self).spec_target() == old(self).spec_target()
                    &&& step matches LookupStep::Done(outcome) && (outcome matches
                        CallOutcome::Failure { error } && error == e)
                },
            },
    {
        match result {
            Ok(addr) => {
                self.target = RemoteTarget::FixedEndpoint { addr };
                self.relocated = true;
                self.phase = CallPhase::AwaitingResponse;
                LookupStep::Redispatch
            },
            Err(e) => {
                self.phase = CallPhase::Done;
                LookupStep::Done(CallOutcome::Failure { error: e })
            },
        }
    }
}

impl<R: SetNodeId> Call<R> {
    /// Besides [`Call::wf`]: the call addresses a group node, and the
    /// request's embedded node id always equals the id of the node the
    /// call is addressed to.
    pub closed spec fn wf_group(&self) -> bool {
        &&& self.wf()
        &&& self.target matches RemoteTarget::GroupNode { local_node_id, .. }
            && self.request.node_id_view() == local_node_id@
    }

    /// Creates a call against a group node, already dispatching. The
    /// request must be addressed to that same node.
    pub fn new_group(node: RemoteNodeId, request: R, retry_budget: usize, rpc_name: String) -> (c:
        Self)
        requires
            request.node_id_view() == node.local_id@,
        ensures
            c.wf_group(),
            c.spec_target() matches RemoteTarget::GroupNode { addr, local_node_id } && addr
                == node.addr && local_node_id == node.local_id,
            c.spec_request() == request,
            c.spec_retry_budget() == retry_budget,
            c.spec_retried_count() == 0,
            !c.spec_relocated(),
            c.spec_phase() is AwaitingResponse,
            c.spec_rpc_name() == rpc_name,
    {
        Call {
            target: RemoteTarget::GroupNode { addr: node.addr, local_node_id: node.local_id },
            request,
            retry_budget,
            retried_count: 0,
            relocated: false,
            phase: CallPhase::AwaitingResponse,
            rpc_name,
        }
    }

    /// Feeds the answer of a leader lookup into a group-addressed call.
    ///
    /// A discovered leader replaces the current target, and the request's
    /// embedded node id is patched to the new node's id before the driver
    /// dispatches again. A lookup failure finishes the call with that
    /// failure, exactly as it came: a lookup failure is never
    /// reinterpreted as `NotLeader`.
    pub fn on_leader_located<V>(&mut self, result: Result<RemoteNodeId, Error>) -> (step: LookupStep<
        V,
    >)
        requires
            old(self).wf_group(),
            old(self).spec_phase() is LocatingLeader,
        ensures
            final(self).wf_group(),
            final(self).spec_retry_budget() == old(self).spec_retry_budget(),
            final(self).spec_retried_count() == old(self).spec_retried_count(),
            final(self).spec_rpc_name() == old(self).spec_rpc_name(),
            match result {
                Ok(leader) => {
                    &&& final(self).spec_phase() is AwaitingResponse
                    &&& final(self).spec_relocated()
                    &&& final(self).spec_target() matches RemoteTarget::GroupNode {
                        addr,
                        local_node_id,
                    } && addr == leader.addr && local_node_id == leader.local_id
                    &&& final(self).spec_request().node_id_view() == leader.local_id@
                    &&& step is Redispatch
                },
                Err(e) => {
                    &&& final(self).spec_phase() is Done
                    &&& final(self).spec_relocated() == old(self).spec_relocated()
                    &&& final(self).spec_target() == old(self).spec_target()
                    &&& final(self).spec_request() == old(self).spec_request()
                    &&& step matches LookupStep::Done(outcome) && (outcome matches
                        CallOutcome::Failure { error } && error == e)
                },
            },
    {
        match result {
            Ok(leader) => {
                let node_id_for_request = leader.local_id.clone();
                self.target = RemoteTarget::GroupNode {
                    addr: leader.addr,
                    local_node_id: leader.local_id,
                };
                self.request.set_node_id(node_id_for_request);
                self.relocated = true;
                self.phase = CallPhase::AwaitingResponse;
                LookupStep::Redispatch
            },
            Err(e) => {
                self.phase = CallPhase::Done;
                LookupStep::Done(CallOutcome::Failure { error: e })
            },
        }
    }
}

/// The verdict of the protocol on recorded results: given that dispatch
/// number `i` is answered with `responses[i]` and leader lookup number
/// `i` with `lookups[i]`, how does the call end?
pub enum CallVerdict<V> {
    /// Dispatch number `attempt` is answered with `value`: the call
    /// succeeds with it.
    Succeeds {
        /// The number of the deciding dispatch.
        attempt: int,
        /// The value the call succeeds with.
        value: V,
    },
    /// Dispatch number `attempt` fails other than with `NotLeader`: the
    /// failure propagates immediately.
    FailsDirect {
        /// The number of the deciding dispatch.
        attempt: int,
        /// The propagated failure.
        error: Error,
    },
    /// Dispatch number `attempt` is answered `NotLeader` with the retry
    /// budget exhausted: the call fails as `Unavailable`.
    FailsBudget {
        /// The number of the deciding dispatch.
        attempt: int,
    },
    /// The leader lookup after dispatch number `attempt` fails: the
    /// lookup failure propagates, never reinterpreted as `NotLeader`.
    FailsLookup {
        /// The number of the dispatch whose lookup failed.
        attempt: int,
        /// The propagated lookup failure.
        error: Error,
    },
    /// The recorded results do not cover the whole call.
    Unresolved,
}

/// The protocol as a function of the recorded results, from dispatch
/// number `attempt` on: succeed on a success, propagate a failure that is
/// not `NotLeader`, fail as `Unavailable` when a `NotLeader` arrives with
/// the budget spent, and otherwise consume one lookup and go on with the
/// next dispatch.
pub open spec fn call_verdict<V, T>(
    retry_budget: int,
    attempt: int,
    responses: Seq<Result<V, Error>>,
    lookups: Seq<Result<T, Error>>,
) -> CallVerdict<V>
    decreases responses.len() - attempt,
{
    if attempt < 0 || attempt >= responses.len() {
        CallVerdict::Unresolved
    } else {
        match responses[attempt] {
            Ok(value) => CallVerdict::Succeeds { attempt, value },
            Err(e) => {
                if !(e.kind is NotLeader) {
                    CallVerdict::FailsDirect { attempt, error: e }
                } else if attempt >= retry_budget {
                    CallVerdict::FailsBudget { attempt }
                } else if attempt >= lookups.len() {
                    CallVerdict::Unresolved
                } else {
                    match lookups[attempt] {
                        Err(lookup_error) => CallVerdict::FailsLookup {
                            attempt,
                            error: lookup_error,
                        },
                        Ok(_) => call_verdict(retry_budget, attempt + 1, responses, lookups),
                    }
                }
            },
        }
    }
}

/// How many leader lookups a whole call performs on the recorded results:
/// one per redirected dispatch, the failing lookup included.
pub open spec fn call_lookup_count<V, T>(
    retry_budget: int,
    responses: Seq<Result<V, Error>>,
    lookups: Seq<Result<T, Error>>,
) -> int {
    match call_verdict(retry_budget, 0, responses, lookups) {
        CallVerdict::Succeeds { attempt, .. } => attempt,
        CallVerdict::FailsDirect { attempt, .. } => attempt,
        CallVerdict::FailsBudget { attempt } => attempt,
        CallVerdict::FailsLookup { attempt, .. } => attempt + 1,
        CallVerdict::Unresolved => 0,
    }
}

/// What a replayed group-addressed call returns: outcome and lookup count
/// follow the verdict, and a successful call that relocated reports the
/// last discovered leader as the rediscovered target.
pub open spec fn group_call_post<V>(
    retry_budget: int,
    responses: Seq<Result<V, Error>>,
    lookups: Seq<Result<RemoteNodeId, Error>>,
    rpc_name: Seq<char>,
    outcome: CallOutcome<V>,
    lookup_count: int,
) -> bool {
    &&& lookup_count == call_lookup_count(retry_budget, responses, lookups)
    &&& match call_verdict(retry_budget, 0, responses, lookups) {
        CallVerdict::Succeeds { attempt, value } => outcome matches CallOutcome::Success {
            value: v,
            rediscovered,
        } && v == value && (if attempt == 0 {
            rediscovered is None
        } else {
            &&& rediscovered matches Some(t)
            &&& t matches RemoteTarget::GroupNode { addr, local_node_id }
            &&& lookups[attempt - 1] matches Ok(leader) && addr@ == leader.addr@
                && local_node_id@ == leader.local_id@
        }),
        CallVerdict::FailsDirect { error, .. } => outcome matches CallOutcome::Failure { error: e }
            && e.kind == error.kind && e.message@ == rpc_annotated_message(
            error.message@,
            rpc_name,
        ),
        CallVerdict::FailsBudget { .. } => outcome matches CallOutcome::Failure { error: e }
            && e.kind == ErrorKind::Unavailable && e.message@ == unstable_cluster_message(rpc_name),
        CallVerdict::FailsLookup { error, .. } => outcome matches CallOutcome::Failure { error: e }
            && e == error,
        CallVerdict::Unresolved => false,
    }
}

/// What a replayed fixed-endpoint call returns: as for a group call, but
/// no rediscovered target is ever reported.
pub open spec fn fixed_call_post<V>(
    retry_budget: int,
    responses: Seq<Result<V, Error>>,
    lookups: Seq<Result<String, Error>>,
    rpc_name: Seq<char>,
    outcome: CallOutcome<V>,
    lookup_count: int,
) -> bool {
    &&& lookup_count == call_lookup_count(retry_budget, responses, lookups)
    &&& match call_verdict(retry_budget, 0, responses, lookups) {
        CallVerdict::Succeeds { value, .. } => outcome matches CallOutcome::Success {
            value: v,
            rediscovered,
        } && v == value && rediscovered is None,
        CallVerdict::FailsDirect { error, .. } => outcome matches CallOutcome::Failure { error: e }
            && e.kind == error.kind && e.message@ == rpc_annotated_message(
            error.message@,
            rpc_name,
        ),
        CallVerdict::FailsBudget { .. } => outcome matches CallOutcome::Failure { error: e }
            && e.kind == ErrorKind::Unavailable && e.message@ == unstable_cluster_message(rpc_name),
        CallVerdict::FailsLookup { error, .. } => outcome matches CallOutcome::Failure { error: e }
            && e == error,
        CallVerdict::Unresolved => false,
    }
}

/// Replays a group-addressed call deterministically: dispatch number `i`
/// is answered with `responses[i]`, leader lookup number `i` with
/// `lookups[i]`. Returns the outcome and the number of leader lookups
/// performed. The recorded results must cover the whole call.
#[verifier::loop_isolation(false)]
pub fn run_group_call<R: SetNodeId, V>(
    node: RemoteNodeId,
    request: R,
    retry_budget: usize,
    rpc_name: String,
    responses: Vec<Result<V, Error>>,
    lookups: Vec<Result<RemoteNodeId, Error>>,
) -> (r: (CallOutcome<V>, usize))
    requires
        request.node_id_view() == node.local_id@,
        !(call_verdict(retry_budget as int, 0, responses@, lookups@) is Unresolved),
    ensures
        group_call_post(retry_budget as int, responses@, lookups@, rpc_name@, r.0, r.1 as int),
{
    let ghost all_responses = responses@;
    let ghost all_lookups = lookups@;
    let mut responses = responses;
    let mut lookups = lookups;
    let mut call = Call::new_group(node, request, retry_budget, rpc_name);
    let mut lookup_count: usize = 0;
    proof {
        assert(responses@ =~= all_responses.subrange(0, all_responses.len() as int));
        assert(lookups@ =~= all_lookups.subrange(0, all_lookups.len() as int));
    }
    loop
        invariant
            call.wf_group(),
            call.spec_phase() is AwaitingResponse,
            call.spec_retry_budget() == retry_budget,
            call.spec_rpc_name() == rpc_name,
            call.spec_retried_count() == lookup_count,
            responses@ == all_responses.subrange(lookup_count as int, all_responses.len() as int),
            lookups@ == all_lookups.subrange(lookup_count as int, all_lookups.len() as int),
            call_verdict(retry_budget as int, lookup_count as int, all_responses, all_lookups)
                == call_verdict(retry_budget as int, 0, all_responses, all_lookups),
            !(call_verdict(retry_budget as int, 0, all_responses, all_lookups) is Unresolved),
            call.spec_relocated() <==> lookup_count > 0,
            lookup_count > 0 ==> (call.spec_target() matches RemoteTarget::GroupNode {
                addr,
                local_node_id,
            } && all_lookups[lookup_count - 1] matches Ok(leader) && addr@ == leader.addr@
                && local_node_id@ == leader.local_id@),
        decreases all_responses.len() - lookup_count,
    {
        let ghost attempt = lookup_count as int;
        proof {
            assert(attempt < all_responses.len()) by {
                if attempt >= all_responses.len() {
                    assert(call_verdict(
                        retry_budget as int,
                        attempt,
                        all_responses,
                        all_lookups,
                    ) is Unresolved);
                }
            }
        }
        let resp = responses.remove(0);
        proof {
            assert(resp == all_responses[attempt]);
            assert(responses@ =~= all_responses.subrange(
                attempt + 1,
                all_responses.len() as int,
            ));
        }
        match call.on_response(resp) {
            ResponseStep::Done(outcome) => {
                proof {
                    match all_responses[attempt] {
                        Ok(value) => {
                            assert(call_verdict(
                                retry_budget as int,
                                attempt,
                                all_responses,
                                all_lookups,
                            ) == CallVerdict::Succeeds { attempt, value });
                        },
                        Err(e) => {
                            if !(e.kind is NotLeader) {
                                assert(call_verdict(
                                    retry_budget as int,
                                    attempt,
                                    all_responses,
                                    all_lookups,
                                ) == CallVerdict::<V>::FailsDirect { attempt, error: e });
                            } else {
                                assert(attempt >= retry_budget as int);
                                assert(call_verdict(
                                    retry_budget as int,
                                    attempt,
                                    all_responses,
                                    all_lookups,
                                ) == CallVerdict::<V>::FailsBudget { attempt });
                            }
                        },
                    }
                }
                return (outcome, lookup_count);
            },
            ResponseStep::LocateLeader => {
                proof {
                    assert(attempt < all_lookups.len()) by {
                        if attempt >= all_lookups.len() {
                            assert(call_verdict(
                                retry_budget as int,
                                attempt,
                                all_responses,
                                all_lookups,
                            ) is Unresolved);
                        }
                    }
                }
                let lk = lookups.remove(0);
                proof {
                    assert(lk == all_lookups[attempt]);
                    assert(lookups@ =~= all_lookups.subrange(
                        attempt + 1,
                        all_lookups.len() as int,
                    ));
                }
                lookup_count = lookup_count + 1;
                match call.on_leader_located(lk) {
                    LookupStep::Done(outcome) => {
                        proof {
                            assert(all_lookups[attempt] matches Err(lookup_error)
                                && call_verdict(
                                retry_budget as int,
                                attempt,
                                all_responses,
                                all_lookups,
                            ) == (CallVerdict::<V>::FailsLookup { attempt, error: lookup_error }));
                        }
                        return (outcome, lookup_count);
                    },
                    LookupStep::Redispatch => {
                        proof {
                            assert(call_verdict(
                                retry_budget as int,
                                attempt,
                                all_responses,
                                all_lookups,
                            ) == call_verdict(
                                retry_budget as int,
                                attempt + 1,
                                all_responses,
                                all_lookups,
                            ));
                        }
                    },
                }
            },
        }
    }
}

/// Replays a fixed-endpoint call deterministically: dispatch number `i`
/// is answered with `responses[i]`, leader lookup number `i` with
/// `lookups[i]`. Returns the outcome and the number of leader lookups
/// performed. The recorded results must cover the whole call.
#[verifier::loop_isolation(false)]
pub fn run_fixed_call<R, V>(
    addr: String,
    request: R,
    retry_budget: usize,
    rpc_name: String,
    responses: Vec<Result<V, Error>>,
    lookups: Vec<Result<String, Error>>,
) -> (r: (CallOutcome<V>, usize))
    requires
        !(call_verdict(retry_budget as int, 0, responses@, lookups@) is Unresolved),
    ensures
        fixed_call_post(retry_budget as int, responses@, lookups@, rpc_name@, r.0, r.1 as int),
{
    let ghost all_responses = responses@;
    let ghost all_lookups = lookups@;
    let mut responses = responses;
    let mut lookups = lookups;
    let mut call = Call::<R>::new_fixed(addr, request, retry_budget, rpc_name);
    let mut lookup_count: usize = 0;
    proof {
        assert(responses@ =~= all_responses.subrange(0, all_responses.len() as int));
        assert(lookups@ =~= all_lookups.subrange(0, all_lookups.len() as int));
    }
    loop
        invariant
            call.wf(),
            call.spec_phase() is AwaitingResponse,
            call.spec_target() is FixedEndpoint,
            call.spec_retry_budget() == retry_budget,
            call.spec_rpc_name() == rpc_name,
            call.spec_retried_count() == lookup_count,
            responses@ == all_responses.subrange(lookup_count as int, all_responses.len() as int),
            lookups@ == all_lookups.subrange(lookup_count as int, all_lookups.len() as int),
            call_verdict(retry_budget as int, lookup_count as int, all_responses, all_lookups)
                == call_verdict(retry_budget as int, 0, all_responses, all_lookups),
            !(call_verdict(retry_budget as int, 0, all_responses, all_lookups) is Unresolved),
            !call.spec_relocated() || call.spec_target() is FixedEndpoint,
        decreases all_responses.len() - lookup_count,
    {
        let ghost attempt = lookup_count as int;
        proof {
            assert(attempt < all_responses.len()) by {
                if attempt >= all_responses.len() {
                    assert(call_verdict(
                        retry_budget as int,
                        attempt,
                        all_responses,
                        all_lookups,
                    ) is Unresolved);
                }
            }
        }
        let resp = responses.remove(0);
        proof {
            assert(resp == all_responses[attempt]);
            assert(responses@ =~= all_responses.subrange(
                attempt + 1,
                all_responses.len() as int,
            ));
        }
        match call.on_response(resp) {
            ResponseStep::Done(outcome) => {
                proof {
                    match all_responses[attempt] {
                        Ok(value) => {
                            assert(call_verdict(
                                retry_budget as int,
                                attempt,
                                all_responses,
                                all_lookups,
                            ) == CallVerdict::Succeeds { attempt, value });
                        },
                        Err(e) => {
                            if !(e.kind is NotLeader) {
                                assert(call_verdict(
                                    retry_budget as int,
                                    attempt,
                                    all_responses,
                                    all_lookups,
                                ) == CallVerdict::<V>::FailsDirect { attempt, error: e });
                            } else {
                                assert(attempt >= retry_budget as int);
                                assert(call_verdict(
                                    retry_budget as int,
                                    attempt,
                                    all_responses,
                                    all_lookups,
                                ) == CallVerdict::<V>::FailsBudget { attempt });
                            }
                        },
                    }
                }
                return (outcome, lookup_count);
            },
            ResponseStep::LocateLeader => {
                proof {
                    assert(attempt < all_lookups.len()) by {
                        if attempt >= all_lookups.len() {
                            assert(call_verdict(
                                retry_budget as int,
                                attempt,
                                all_responses,
                                all_lookups,
                            ) is Unresolved);
                        }
                    }
                }
                let lk = lookups.remove(0);
                proof {
                    assert(lk == all_lookups[attempt]);
                    assert(lookups@ =~= all_lookups.subrange(
                        attempt + 1,
                        all_lookups.len() as int,
                    ));
                }
                lookup_count = lookup_count + 1;
                match call.on_leader_located_fixed(lk) {
                    LookupStep::Done(outcome) => {
                        proof {
                            assert(all_lookups[attempt] matches Err(lookup_error)
                                && call_verdict(
                                retry_budget as int,
                                attempt,
                                all_responses,
                                all_lookups,
                            ) == (CallVerdict::<V>::FailsLookup { attempt, error: lookup_error }));
                        }
                        return (outcome, lookup_count);
                    },
                    LookupStep::Redispatch => {
                        proof {
                            assert(call_verdict(
                                retry_budget as int,
                                attempt,
                                all_responses,
                                all_lookups,
                            ) == call_verdict(
                                retry_budget as int,
                                attempt + 1,
                                all_responses,
                                all_lookups,
                            ));
                        }
                    },
                }
            },
        }
    }
}

/// Skipping redirected attempts: as long as every dispatch before
/// `redirects` is answered `NotLeader` and every lookup before it
/// succeeds, the verdict is decided from attempt `redirects` on.
proof fn lemma_verdict_after_redirects<V, T>(
    retry_budget: int,
    redirects: int,
    responses: Seq<Result<V, Error>>,
    lookups: Seq<Result<T, Error>>,
)
    requires
        0 <= redirects <= retry_budget,
        redirects <= responses.len(),
        forall|i: int|
            0 <= i < redirects ==> (#[trigger] responses[i] matches Err(e) && e.kind is NotLeader),
        redirects <= lookups.len(),
        forall|i: int| 0 <= i < redirects ==> #[trigger] lookups[i] is Ok,
    ensures
        call_verdict(retry_budget, 0, responses, lookups) == call_verdict(
            retry_budget,
            redirects,
            responses,
            lookups,
        ),
    decreases redirects,
{
    if redirects > 0 {
        lemma_verdict_after_redirects(retry_budget, redirects - 1, responses, lookups);
        assert(call_verdict(retry_budget, redirects - 1, responses, lookups) == call_verdict(
            retry_budget,
            redirects,
            responses,
            lookups,
        ));
    }
}

/// Optimistic dispatch: when the very first dispatch succeeds, the call
/// succeeds with that value and performs no leader lookup at all.
pub proof fn lemma_first_dispatch_success<V, T>(
    retry_budget: int,
    responses: Seq<Result<V, Error>>,
    lookups: Seq<Result<T, Error>>,
)
    requires
        responses.len() > 0,
        responses[0] is Ok,
    ensures
        call_verdict(retry_budget, 0, responses, lookups) == (CallVerdict::Succeeds {
            attempt: 0,
            value: responses[0]->Ok_0,
        }),
        call_lookup_count(retry_budget, responses, lookups) == 0,
{
}

/// Redirects within the budget: a call answered `NotLeader` `redirects`
/// times, with every leader lookup succeeding and dispatch number
/// `redirects` succeeding, succeeds with that dispatch's value after
/// exactly `redirects` lookups. Which target a successful call then
/// reports is fixed by [`group_call_post`]: the last lookup's answer.
pub proof fn lemma_success_within_budget<V, T>(
    retry_budget: int,
    redirects: int,
    responses: Seq<Result<V, Error>>,
    lookups: Seq<Result<T, Error>>,
)
    requires
        0 <= redirects <= retry_budget,
        redirects < responses.len(),
        forall|i: int|
            0 <= i < redirects ==> (#[trigger] responses[i] matches Err(e) && e.kind is NotLeader),
        responses[redirects] is Ok,
        redirects <= lookups.len(),
        forall|i: int| 0 <= i < redirects ==> #[trigger] lookups[i] is Ok,
    ensures
        call_verdict(retry_budget, 0, responses, lookups) == (CallVerdict::Succeeds {
            attempt: redirects,
            value: responses[redirects]->Ok_0,
        }),
        call_lookup_count(retry_budget, responses, lookups) == redirects,
{
    lemma_verdict_after_redirects(retry_budget, redirects, responses, lookups);
}

/// Budget exhaustion: a call answered `NotLeader` `retry_budget + 1`
/// times in a row, with every leader lookup succeeding, terminates with
/// the budget-exhaustion verdict at dispatch number `retry_budget`, after
/// exactly `retry_budget` lookups: it never loops a further time.
pub proof fn lemma_budget_exhaustion<V, T>(
    retry_budget: int,
    responses: Seq<Result<V, Error>>,
    lookups: Seq<Result<T, Error>>,
)
    requires
        retry_budget >= 0,
        retry_budget < responses.len(),
        forall|i: int|
            0 <= i <= retry_budget ==> (#[trigger] responses[i] matches Err(e) && e.kind
                is NotLeader),
        retry_budget <= lookups.len(),
        forall|i: int| 0 <= i < retry_budget ==> #[trigger] lookups[i] is Ok,
    ensures
        call_verdict(retry_budget, 0, responses, lookups) == (CallVerdict::FailsBudget::<V> {
            attempt: retry_budget,
        }),
        call_lookup_count(retry_budget, responses, lookups) == retry_budget,
{
    lemma_verdict_after_redirects(retry_budget, retry_budget, responses, lookups);
}

/// Immediate propagation: a first dispatch that fails with anything but
/// `NotLeader` decides the call at once, with zero leader lookups, and
/// the failure propagates with its class intact.
pub proof fn lemma_other_failure_immediate<V, T>(
    retry_budget: int,
    responses: Seq<Result<V, Error>>,
    lookups: Seq<Result<T, Error>>,
)
    requires
        responses.len() > 0,
        responses[0] matches Err(e) && !(e.kind is NotLeader),
    ensures
        call_verdict(retry_budget, 0, responses, lookups) == (CallVerdict::FailsDirect::<V> {
            attempt: 0,
            error: responses[0]->Err_0,
        }),
        call_lookup_count(retry_budget, responses, lookups) == 0,
{
}

} // verus!
