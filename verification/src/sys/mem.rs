//! Memory partitions.
use vstd::prelude::*;

verus! {

/// Identifier of a memory partition of the PSP.
#[derive(Debug, Clone, Copy, PartialEq, Eq, Structural, PartialOrd, Ord, Hash)]
pub struct MemoryPartitionId(pub u32);

impl MemoryPartitionId {
    /// The main kernel partition.
    pub fn kernel() -> (r: MemoryPartitionId)
        ensures
            r.0 == 1,
    {
        MemoryPartitionId(1)
    }

    /// The main user partition.
    pub fn main_user() -> (r: MemoryPartitionId)
        ensures
            r.0 == 2,
    {
        MemoryPartitionId(2)
    }

    /// The partition that option records name when no other is chosen: the main user one.
    pub open spec fn spec_default() -> MemoryPartitionId {
        MemoryPartitionId(2)
    }
}

impl Default for MemoryPartitionId {
    fn default() -> (r: MemoryPartitionId)
        ensures
            r == MemoryPartitionId::spec_default(),
    {
        MemoryPartitionId(2)
    }
}

} // verus!
