//! The crate's error type and the error classifier.
//!
//! The classification into [`ErrorKind`] is the sole signal the call
//! orchestrator uses to decide whether a failure is retryable:
//! `NotLeader` is the only retryable class, everything else propagates
//! immediately and unmodified to the caller.
use vstd::prelude::*;

use crate::entity::object::ObjectVersion;

verus! {

use vstd::string::StringExecFns;

/// The closed set of failure classes.
#[derive(Debug, Clone, Copy, PartialEq, Eq, Structural)]
pub enum ErrorKind {
    /// Malformed request; a caller error, never retried.
    InvalidInput,

    /// The cluster is too unstable to complete the call, or the target is
    /// plain unreachable.
    Unavailable,

    /// The request's deadline expired; never retried by this layer.
    Timeout,

    /// The addressed node is not the leader; the one retryable class.
    NotLeader,

    /// A compare-and-swap expectation failed; carries the object's actual
    /// version when it is known.
    Unexpected(Option<ObjectVersion>),

    /// Catch-all for transport or encoding faults.
    Other,
}

/// The crate's error type: a failure class plus a human-readable message.
#[derive(Debug, Clone)]
pub struct Error {
    /// The failure class.
    pub kind: ErrorKind,

    /// Human-readable diagnostics.
    pub message: String,
}

/// The message of an error produced when the retry budget is exhausted,
/// annotated with the name of the RPC that ran out of retries.
pub open spec fn unstable_cluster_message(rpc_name: Seq<char>) -> Seq<char> {
    "Unstable cluster: RPC="@ + rpc_name
}

/// The message of an error annotated with the name of the RPC it came from.
pub open spec fn rpc_annotated_message(message: Seq<char>, rpc_name: Seq<char>) -> Seq<char> {
    message + " (RPC="@ + rpc_name + ")"@
}

impl Error {
    /// Makes a new `Error` from a failure class and a message.
    pub fn new(kind: ErrorKind, message: String) -> (e: Error)
        ensures
            e.kind == kind,
            e.message == message,
    {
        Error { kind, message }
    }

    /// Returns the failure class of this error.
    pub fn kind(&self) -> (k: &ErrorKind)
        ensures
            *k == self.kind,
    {
        &self.kind
    }

    /// Annotates this error with the name of the originating RPC, for
    /// observability; the failure class is unchanged.
    pub fn with_rpc_name(self, rpc_name: &str) -> (e: Error)
        ensures
            e.kind == self.kind,
            e.message@ == rpc_annotated_message(self.message@, rpc_name@),
    {
        let mut message = self.message;
        message.append(" (RPC=");
        message.append(rpc_name);
        message.append(")");
        Error { kind: self.kind, message }
    }

    /// The terminal error produced when a call exhausts its retry budget:
    /// the cluster itself is unstable, not just this one call misrouted.
    pub fn unstable_cluster(rpc_name: &str) -> (e: Error)
        ensures
            e.kind == ErrorKind::Unavailable,
            e.message@ == unstable_cluster_message(rpc_name@),
    {
        let mut message = "Unstable cluster: RPC=".to_owned();
        message.append(rpc_name);
        Error { kind: ErrorKind::Unavailable, message }
    }
}

/// The failure classes that the RPC transport itself can report.
///
/// A `NotLeader` failure never originates in the transport: it is a
/// domain-level answer decoded from a response payload.
#[derive(Debug, Clone, Copy, PartialEq, Eq, Structural)]
pub enum TransportErrorKind {
    /// The transport rejected the request as malformed.
    InvalidInput,

    /// The destination could not be reached.
    Unavailable,

    /// The deadline expired at the socket level.
    Timeout,

    /// Any other transport fault.
    Other,
}

/// How each transport failure class maps into the domain classes.
pub open spec fn spec_classify_transport_error(kind: TransportErrorKind) -> ErrorKind {
    match kind {
        TransportErrorKind::InvalidInput => ErrorKind::InvalidInput,
        TransportErrorKind::Unavailable => ErrorKind::Unavailable,
        TransportErrorKind::Timeout => ErrorKind::Timeout,
        TransportErrorKind::Other => ErrorKind::Other,
    }
}

/// The error classifier: maps a transport-level failure into the domain's
/// closed set of failure classes. The result is never `NotLeader`, so a
/// transport failure is never retried.
pub fn classify_transport_error(kind: TransportErrorKind) -> (k: ErrorKind)
    ensures
        k == spec_classify_transport_error(kind),
        !(k is NotLeader),
{
    match kind {
        TransportErrorKind::InvalidInput => ErrorKind::InvalidInput,
        TransportErrorKind::Unavailable => ErrorKind::Unavailable,
        TransportErrorKind::Timeout => ErrorKind::Timeout,
        TransportErrorKind::Other => ErrorKind::Other,
    }
}

} // verus!
