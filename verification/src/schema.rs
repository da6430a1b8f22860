//! Schema of the RPCs: procedure ids and names, and request shapes.
//!
//! Compatibility with deployed nodes binds this schema: a procedure id is
//! never reused, a field slot is never reused, and an incompatible change
//! of a request or response shape gets a freshly defined RPC instead of a
//! changed one.

pub mod config;
pub mod frugalos;
pub mod mds;
