//! Addresses into guest physical memory.

use vstd::prelude::*;

verus! {

/// An offset into guest physical memory; ordered and immutable once built.
#[derive(PartialEq, Eq, Structural, PartialOrd, Ord, Clone, Copy, Debug)]
pub struct MemoryAddr(pub usize);

impl MemoryAddr {
    /// The address `offset` bytes further on.
    pub fn add_offset(&self, offset: usize) -> (r: MemoryAddr)
        requires
            self.0 + offset <= usize::MAX,
        ensures
            r.0 == self.0 + offset,
    {
        MemoryAddr(self.0 + offset)
    }
}

} // verus!
