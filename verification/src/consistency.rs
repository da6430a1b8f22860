//! Read-consistency levels for metadata reads.
use vstd::prelude::*;

verus! {

/// How strong a metadata read has to be.
#[derive(Debug, Clone, Copy, PartialEq, Eq)]
pub enum ReadConsistency {
    /// Read through the current leader.
    Consistent,

    /// A possibly stale read from any member.
    Stale,

    /// Read answered by a quorum of members.
    Quorum,

    /// Read answered by a fixed-size subset of members.
    Subset(usize),
}

impl Default for ReadConsistency {
    /// The default read goes through the leader.
    fn default() -> (c: Self)
        ensures
            c is Consistent,
    {
        ReadConsistency::Consistent
    }
}

} // verus!
