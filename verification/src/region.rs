//! Host memory behind the device's shared memory window.
use vstd::prelude::*;

verus! {

/// A mapping of this process. It ends before the end of the address space.
#[derive(Debug, Clone, Copy, PartialEq, Eq, Structural)]
pub struct MmapRegion {
    addr: usize,
    size: usize,
}

impl MmapRegion {
    #[verifier::type_invariant]
    spec fn ends_inside_the_address_space(self) -> bool {
        self.addr + self.size <= usize::MAX
    }

    /// The address of the first byte.
    pub closed spec fn spec_addr(self) -> usize {
        self.addr
    }

    /// The number of bytes.
    pub closed spec fn spec_size(self) -> usize {
        self.size
    }

    /// Describes the mapping of `size` bytes at `addr`, unless it would reach past the end of the
    /// address space.
    pub fn new(addr: usize, size: usize) -> (region: Option<MmapRegion>)
        ensures
            addr + size <= usize::MAX ==> region is Some && region->0.spec_addr() == addr
                && region->0.spec_size() == size,
            addr + size > usize::MAX ==> region is None,
    {
        match addr.checked_add(size) {
            Some(_) => Some(MmapRegion { addr, size }),
            None => None,
        }
    }

    /// The address of the first byte.
    pub fn addr(&self) -> (addr: usize)
        ensures
            addr == self.spec_addr(),
    {
        self.addr
    }

    /// The number of bytes.
    pub fn size(&self) -> (size: usize)
        ensures
            size == self.spec_size(),
    {
        self.size
    }

    /// The address of the byte at `offset`, or the end of the mapping.
    pub fn address_at(&self, offset: usize) -> (addr: usize)
        requires
            offset <= self.spec_size(),
        ensures
            addr == self.spec_addr() + offset,
    {
        proof {
            use_type_invariant(self);
        }
        self.addr + offset
    }
}

/// The shared memory window of a device: the host mapping, where the guest sees it and the
/// memory slot that connects the two.
#[derive(Debug, Clone, Copy, PartialEq, Eq, Structural)]
pub struct VirtioSharedMemoryList {
    pub mem_slot: u32,
    pub addr: u64,
    pub mapping: MmapRegion,
}

/// A host mapping that the guest can reach at guest address `addr`.
#[derive(Debug, Clone, Copy, PartialEq, Eq, Structural)]
pub struct UserspaceMapping {
    pub mem_slot: u32,
    pub addr: u64,
    pub mapping: MmapRegion,
    pub mergeable: bool,
}

} // verus!
