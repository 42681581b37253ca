//! Memory figures for the usage graph.

use vstd::prelude::*;

verus! {

/// The block counts that the system reports for its memory.
#[derive(Clone, Copy, PartialEq, Eq, Structural, Debug)]
pub struct MemoryStat {
    /// Bytes in one block.
    pub block_size: u32,
    /// Blocks in all.
    pub blocks: u64,
    /// Blocks not in use.
    pub blocks_free: u64,
    /// Blocks that can be handed out.
    pub blocks_available: u64,
}

impl MemoryStat {
    /// Bytes in all.
    pub open spec fn size_bytes(self) -> int {
        self.blocks * self.block_size
    }

    /// Bytes in use.
    pub open spec fn used_bytes(self) -> int {
        (self.blocks - self.blocks_free) * self.block_size
    }

    /// Bytes that can be handed out.
    pub open spec fn free_bytes(self) -> int {
        self.blocks_available * self.block_size
    }

    /// Whether the three byte counts can be computed in 64 bits: no more
    /// blocks are free than there are, and neither the size nor the free
    /// bytes pass `u64::MAX`.
    pub open spec fn spec_is_countable(self) -> bool {
        &&& self.blocks_free <= self.blocks
        &&& self.size_bytes() <= u64::MAX
        &&& self.free_bytes() <= u64::MAX
    }

    /// Whether the three byte counts can be computed in 64 bits.
    pub fn is_countable(&self) -> (countable: bool)
        ensures
            countable == self.spec_is_countable(),
    {
        self.blocks_free <= self.blocks && self.blocks.checked_mul(self.block_size as u64).is_some()
            && self.blocks_available.checked_mul(self.block_size as u64).is_some()
    }
}

/// Free, used and total memory in bytes, in this order, each cut down to
/// its low 32 bits. A count of up to `i32::MAX` bytes comes out as it is.
pub fn memory_usage(stat: &MemoryStat) -> (usage: (i32, i32, i32))
    requires
        stat.spec_is_countable(),
    ensures
        usage.0 == stat.free_bytes() as i32,
        usage.1 == stat.used_bytes() as i32,
        usage.2 == stat.size_bytes() as i32,
        stat.free_bytes() <= i32::MAX ==> usage.0 == stat.free_bytes(),
        stat.used_bytes() <= i32::MAX ==> usage.1 == stat.used_bytes(),
        stat.size_bytes() <= i32::MAX ==> usage.2 == stat.size_bytes(),
{
    let block_size: u64 = stat.block_size as u64;
    assert(stat.used_bytes() <= stat.size_bytes()) by (nonlinear_arith)
        requires
            stat.blocks_free <= stat.blocks,
            stat.used_bytes() == (stat.blocks - stat.blocks_free) * stat.block_size,
            stat.size_bytes() == stat.blocks * stat.block_size,
    ;
    assert(0 <= stat.used_bytes()) by (nonlinear_arith)
        requires
            stat.blocks_free <= stat.blocks,
            stat.used_bytes() == (stat.blocks - stat.blocks_free) * stat.block_size,
    ;
    let size: u64 = stat.blocks * block_size;
    let used: u64 = (stat.blocks - stat.blocks_free) * block_size;
    let free: u64 = stat.blocks_available * block_size;
    (
        #[verifier::truncate]
        (free as i32),
        #[verifier::truncate]
        (used as i32),
        #[verifier::truncate]
        (size as i32),
    )
}

/// Free, used and total memory on a system that reports none: fixed sample
/// figures, so that the graph has something to show.
pub fn get_memory_usage() -> (usage: (i32, i32, i32))
    ensures
        usage == (5i32, 10i32, 15i32),
{
    (5, 10, 15)
}

} // verus!
