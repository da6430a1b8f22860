//! Client-side access layer for a segmented object-storage cluster whose
//! metadata is replicated through a leader-based consensus protocol.
//!
//! The heart of the crate is the leader-tracking call protocol in [`client`]:
//! the state machine that turns one logical RPC invocation into a bounded
//! sequence of dispatches, classifying failures, retrying only on
//! `NotLeader`, and relocating the leader in between. Around it stand the
//! entity data model ([`entity`]), the RPC schema descriptors ([`schema`]),
//! and the supporting value types (errors, deadlines, read consistency,
//! compare-and-swap expectations).

pub mod client;
pub mod consistency;
pub mod deadline;
pub mod entity;
pub mod error;
pub mod expect;
pub mod multiplicity;
pub mod repair;
pub mod schema;
pub mod time;

pub use error::Error;
pub use error::ErrorKind;
