//! Object-related entity definitions.
use vstd::prelude::*;

verus! {

/// Identifier of an object.
pub type ObjectId = String;

/// Version number of a metadata object.
#[derive(Debug, Default, Clone, Copy, PartialEq, Eq, PartialOrd, Ord, Hash, Structural)]
pub struct ObjectVersion(pub u64);

/// Prefix of object identifiers.
#[derive(Debug, Default, Clone, PartialEq, Eq, PartialOrd, Ord, Hash)]
pub struct ObjectPrefix(pub String);

/// Summary of a metadata object.
#[derive(Debug, Clone)]
pub struct ObjectSummary {
    /// Identifier of the object.
    pub id: String,

    /// Version of the object.
    pub version: ObjectVersion,
}

/// Metadata of an object.
#[derive(Debug, Default, Clone)]
pub struct Metadata {
    /// Version number.
    pub version: ObjectVersion,

    /// Arbitrary user-defined bytes.
    pub data: Vec<u8>,
}

/// Summary of a deletion of objects selected by an id prefix.
#[derive(Debug, Default, Clone, PartialEq, Eq)]
pub struct DeleteObjectsByPrefixSummary {
    /// Total number of deleted objects.
    pub total: u64,
}

} // verus!
