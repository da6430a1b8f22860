//! Bucket-related entity definitions.
use vstd::prelude::*;

use crate::entity::device::DeviceId;

verus! {

/// Identifier of a bucket.
pub type BucketId = String;

/// Summary of a bucket.
#[derive(Debug, Default, Clone)]
pub struct BucketSummary {
    /// Identifier of the bucket.
    pub id: BucketId,

    /// The kind of the bucket.
    pub kind: BucketKind,

    /// The device the bucket uses.
    pub device: DeviceId,
}

/// The kind of a bucket.
#[derive(Debug, Clone, Copy, PartialEq, Eq, Structural)]
pub enum BucketKind {
    /// A bucket for metadata objects.
    Metadata,

    /// A bucket made redundant by replication.
    Replicated,

    /// A bucket made redundant by erasure coding.
    Dispersed,
}

impl Default for BucketKind {
    /// By default a bucket is erasure coded.
    fn default() -> (k: Self)
        ensures
            k is Dispersed,
    {
        BucketKind::Dispersed
    }
}

/// A bucket.
#[derive(Debug, Clone)]
pub enum Bucket {
    /// A bucket for metadata objects.
    Metadata(MetadataBucket),

    /// A bucket made redundant by replication.
    Replicated(ReplicatedBucket),

    /// A bucket made redundant by erasure coding.
    Dispersed(DispersedBucket),
}

impl Default for Bucket {
    /// An empty metadata bucket.
    fn default() -> (b: Self)
        ensures
            b matches Bucket::Metadata(m) && m.id@ =~= Seq::<char>::empty() && m.seqno == 0
                && m.device@ =~= Seq::<char>::empty() && m.segment_count == 0
                && m.tolerable_faults == 0,
    {
        Bucket::Metadata(
            MetadataBucket {
                id: String::new(),
                seqno: 0,
                device: String::new(),
                segment_count: 0,
                tolerable_faults: 0,
            },
        )
    }
}

impl Bucket {
    /// The bucket's id.
    pub open spec fn spec_id(&self) -> BucketId {
        match self {
            Bucket::Metadata(b) => b.id,
            Bucket::Replicated(b) => b.id,
            Bucket::Dispersed(b) => b.id,
        }
    }

    /// The bucket's sequence number.
    pub open spec fn spec_seqno(&self) -> u32 {
        match self {
            Bucket::Metadata(b) => b.seqno,
            Bucket::Replicated(b) => b.seqno,
            Bucket::Dispersed(b) => b.seqno,
        }
    }

    /// The device the bucket uses.
    pub open spec fn spec_device(&self) -> DeviceId {
        match self {
            Bucket::Metadata(b) => b.device,
            Bucket::Replicated(b) => b.device,
            Bucket::Dispersed(b) => b.device,
        }
    }

    /// The kind of the bucket.
    pub open spec fn spec_kind(&self) -> BucketKind {
        match self {
            Bucket::Metadata(_) => BucketKind::Metadata,
            Bucket::Replicated(_) => BucketKind::Replicated,
            Bucket::Dispersed(_) => BucketKind::Dispersed,
        }
    }

    /// The bucket's number of tolerable faults.
    pub open spec fn spec_tolerable_faults(&self) -> u32 {
        match self {
            Bucket::Metadata(b) => b.tolerable_faults,
            Bucket::Replicated(b) => b.tolerable_faults,
            Bucket::Dispersed(b) => b.tolerable_faults,
        }
    }

    /// The number of data fragments, defined for erasure-coded buckets only.
    pub open spec fn spec_data_fragment_count(&self) -> Option<u32> {
        match self {
            Bucket::Dispersed(b) => Some(b.data_fragment_count),
            _ => None,
        }
    }

    /// The segment count as stored.
    pub open spec fn spec_segment_count_raw(&self) -> u32 {
        match self {
            Bucket::Metadata(b) => b.segment_count,
            Bucket::Replicated(b) => b.segment_count,
            Bucket::Dispersed(b) => b.segment_count,
        }
    }

    /// The segment count as exposed: the low 16 bits of the stored value.
    pub open spec fn spec_segment_count(&self) -> u16 {
        self.spec_segment_count_raw() as u16
    }

    /// The size of the bucket's device group, that is, the size of the
    /// consensus cluster behind each segment: `2 * tolerable_faults + 1`,
    /// and for an erasure-coded bucket at least the fragment count
    /// `tolerable_faults + data_fragment_count`. Reduced to its low 8 bits
    /// as exposed.
    pub open spec fn spec_device_group_size(&self) -> u8 {
        match self {
            Bucket::Metadata(b) => ((b.tolerable_faults * 2 + 1) as u8),
            Bucket::Replicated(b) => ((b.tolerable_faults * 2 + 1) as u8),
            Bucket::Dispersed(b) => {
                let raft_cluster_size = (b.tolerable_faults * 2 + 1) as u8;
                let ec_fragment_count = (b.tolerable_faults + b.data_fragment_count) as u8;
                if raft_cluster_size >= ec_fragment_count {
                    raft_cluster_size
                } else {
                    ec_fragment_count
                }
            },
        }
    }

    /// The segment count that `fix_segment_count` assigns when none is set:
    /// five segments per physical device for a metadata bucket, ten for the
    /// others, divided over the device group, and at least one.
    pub open spec fn spec_fixed_segment_count(&self, physical_device_count: usize) -> u32 {
        let average_segments_per_device: int = if self is Metadata {
            5
        } else {
            10
        };
        let segment_count = average_segments_per_device * physical_device_count
            / self.spec_device_group_size() as int;
        let capped = if segment_count < 1 {
            1int
        } else {
            segment_count
        };
        ((capped as u16) as u32)
    }

    /// Assigns the automatically calculated segment count, unless one is
    /// already set.
    pub fn fix_segment_count(&mut self, physical_device_count: usize)
        requires
            old(self).spec_tolerable_faults() * 2 + 1 <= u32::MAX,
            old(self).spec_data_fragment_count() matches Some(fragments)
                ==> old(self).spec_tolerable_faults() + fragments <= u32::MAX,
            physical_device_count * 10 <= usize::MAX,
        ensures
            old(self).spec_segment_count() != 0 ==> *final(self) == *old(self),
            old(self).spec_segment_count() == 0 ==> {
                &&& final(self).spec_segment_count_raw() == old(self).spec_fixed_segment_count(
                    physical_device_count,
                )
                &&& final(self).spec_id() == old(self).spec_id()
                &&& final(self).spec_seqno() == old(self).spec_seqno()
                &&& final(self).spec_device() == old(self).spec_device()
                &&& final(self).spec_kind() == old(self).spec_kind()
                &&& final(self).spec_tolerable_faults() == old(self).spec_tolerable_faults()
                &&& final(self).spec_data_fragment_count() == old(
                    self,
                ).spec_data_fragment_count()
            },
    {
        if self.segment_count() != 0 {
            return ;
        }
        let average_segments_per_device: usize = match self {
            Bucket::Metadata(_) => 5,
            _ => 10,
        };
        let group_size = self.device_group_size();
        let segment_count = average_segments_per_device * physical_device_count
            / (group_size as usize);
        let capped: usize = if segment_count < 1 {
            1
        } else {
            segment_count
        };
        self.set_segment_count(#[verifier::truncate] (capped as u16));
    }

    /// Sets the bucket's segment count.
    pub fn set_segment_count(&mut self, count: u16)
        ensures
            final(self).spec_segment_count_raw() == count as u32,
            final(self).spec_id() == old(self).spec_id(),
            final(self).spec_seqno() == old(self).spec_seqno(),
            final(self).spec_device() == old(self).spec_device(),
            final(self).spec_kind() == old(self).spec_kind(),
            final(self).spec_tolerable_faults() == old(self).spec_tolerable_faults(),
            final(self).spec_data_fragment_count() == old(self).spec_data_fragment_count(),
    {
        match self {
            Bucket::Metadata(b) => b.segment_count = count as u32,
            Bucket::Replicated(b) => b.segment_count = count as u32,
            Bucket::Dispersed(b) => b.segment_count = count as u32,
        }
    }

    /// Returns the bucket's segment count.
    pub fn segment_count(&self) -> (count: u16)
        ensures
            count == self.spec_segment_count(),
    {
        match self {
            Bucket::Metadata(b) => #[verifier::truncate] (b.segment_count as u16),
            Bucket::Replicated(b) => #[verifier::truncate] (b.segment_count as u16),
            Bucket::Dispersed(b) => #[verifier::truncate] (b.segment_count as u16),
        }
    }

    /// Returns the size of the bucket's device group. It is never zero:
    /// `2 * tolerable_faults + 1` is odd, so its low 8 bits are not all
    /// zero.
    pub fn device_group_size(&self) -> (n: u8)
        requires
            self.spec_tolerable_faults() * 2 + 1 <= u32::MAX,
            self.spec_data_fragment_count() matches Some(fragments)
                ==> self.spec_tolerable_faults() + fragments <= u32::MAX,
        ensures
            n == self.spec_device_group_size(),
            n >= 1,
    {
        match self {
            Bucket::Metadata(b) => {
                let s: u32 = b.tolerable_faults * 2 + 1;
                proof {
                    assert(s as u8 != 0) by (bit_vector)
                        requires
                            s % 2 == 1,
                    ;
                }
                #[verifier::truncate] (s as u8)
            },
            Bucket::Replicated(b) => {
                let s: u32 = b.tolerable_faults * 2 + 1;
                proof {
                    assert(s as u8 != 0) by (bit_vector)
                        requires
                            s % 2 == 1,
                    ;
                }
                #[verifier::truncate] (s as u8)
            },
            Bucket::Dispersed(b) => {
                let s: u32 = b.tolerable_faults * 2 + 1;
                let raft_cluster_size = #[verifier::truncate] (s as u8);
                let ec_fragment_count = #[verifier::truncate] ((b.tolerable_faults
                    + b.data_fragment_count) as u8);
                proof {
                    assert(s as u8 != 0) by (bit_vector)
                        requires
                            s % 2 == 1,
                    ;
                }
                if raft_cluster_size >= ec_fragment_count {
                    raft_cluster_size
                } else {
                    ec_fragment_count
                }
            },
        }
    }

    /// Returns the summary of this bucket.
    pub fn to_summary(&self) -> (s: BucketSummary)
        ensures
            s.id@ == self.spec_id()@,
            s.kind == self.spec_kind(),
            s.device@ == self.spec_device()@,
    {
        BucketSummary { id: self.id().clone(), kind: self.kind(), device: self.device().clone() }
    }

    /// Returns the kind of the bucket.
    pub fn kind(&self) -> (k: BucketKind)
        ensures
            k == self.spec_kind(),
    {
        match self {
            Bucket::Metadata(_) => BucketKind::Metadata,
            Bucket::Replicated(_) => BucketKind::Replicated,
            Bucket::Dispersed(_) => BucketKind::Dispersed,
        }
    }

    /// Returns the device the bucket uses.
    pub fn device(&self) -> (d: &DeviceId)
        ensures
            *d == self.spec_device(),
    {
        match self {
            Bucket::Metadata(b) => &b.device,
            Bucket::Replicated(b) => &b.device,
            Bucket::Dispersed(b) => &b.device,
        }
    }

    /// Returns the bucket's id.
    pub fn id(&self) -> (id: &BucketId)
        ensures
            *id == self.spec_id(),
    {
        match self {
            Bucket::Metadata(b) => &b.id,
            Bucket::Replicated(b) => &b.id,
            Bucket::Dispersed(b) => &b.id,
        }
    }

    /// Sets the bucket's sequence number.
    pub fn set_seqno(&mut self, seqno: u32)
        ensures
            final(self).spec_seqno() == seqno,
            final(self).spec_id() == old(self).spec_id(),
            final(self).spec_device() == old(self).spec_device(),
            final(self).spec_kind() == old(self).spec_kind(),
            final(self).spec_segment_count_raw() == old(self).spec_segment_count_raw(),
            final(self).spec_tolerable_faults() == old(self).spec_tolerable_faults(),
            final(self).spec_data_fragment_count() == old(self).spec_data_fragment_count(),
    {
        match self {
            Bucket::Metadata(b) => b.seqno = seqno,
            Bucket::Replicated(b) => b.seqno = seqno,
            Bucket::Dispersed(b) => b.seqno = seqno,
        }
    }

    /// Returns the bucket's sequence number.
    pub fn seqno(&self) -> (seqno: u32)
        ensures
            seqno == self.spec_seqno(),
    {
        match self {
            Bucket::Metadata(b) => b.seqno,
            Bucket::Replicated(b) => b.seqno,
            Bucket::Dispersed(b) => b.seqno,
        }
    }
}

/// A bucket for metadata objects.
///
/// Unlike the other buckets it keeps all object data in memory: puts and
/// gets are fast, memory load is high.
#[derive(Debug, Clone)]
pub struct MetadataBucket {
    /// Identifier of the bucket.
    pub id: BucketId,

    /// Sequence number, assigned automatically at registration.
    pub seqno: u32,

    /// The device the bucket uses.
    pub device: DeviceId,

    /// The bucket's segment count.
    pub segment_count: u32,

    /// The number of tolerable faults.
    pub tolerable_faults: u32,
}

/// A bucket made redundant by replication.
#[derive(Debug, Clone)]
pub struct ReplicatedBucket {
    /// Identifier of the bucket.
    pub id: BucketId,

    /// Sequence number, assigned automatically at registration.
    pub seqno: u32,

    /// The device the bucket uses.
    pub device: DeviceId,

    /// The bucket's segment count.
    pub segment_count: u32,

    /// The number of tolerable faults; `tolerable_faults + 1` copies are
    /// kept.
    pub tolerable_faults: u32,
}

/// A bucket made redundant by erasure coding.
#[derive(Debug, Clone)]
pub struct DispersedBucket {
    /// Identifier of the bucket.
    pub id: BucketId,

    /// Sequence number, assigned automatically at registration.
    pub seqno: u32,

    /// The device the bucket uses.
    pub device: DeviceId,

    /// The bucket's segment count.
    pub segment_count: u32,

    /// The number of tolerable faults, which is also the number of parity
    /// fragments.
    pub tolerable_faults: u32,

    /// The number of data fragments.
    pub data_fragment_count: u32,
}

} // verus!
