//! Physical memory regions.
//!
//! A region is seen from two sides: the CPU reaches it at a virtual address,
//! the DMA engine at a physical one (turned into a bus address on use).

use vstd::prelude::*;

use crate::bus::{bus_address, bus_alias, lemma_bus_alias_idempotent};

verus! {

/// The mathematical content of a region: where it starts on each side and
/// how many bytes it spans.
pub ghost struct Region {
    pub vaddr: nat,
    pub paddr: nat,
    pub size: nat,
}

impl Region {
    /// Both address ranges fit the machine words that hold them.
    pub open spec fn fits(self) -> bool {
        &&& self.vaddr > 0
        &&& self.paddr > 0
        &&& self.vaddr + self.size <= u64::MAX + 1
        &&& self.paddr + self.size <= u32::MAX + 1
    }

    /// Whether virtual address `a` lies inside the region.
    pub open spec fn holds_vaddr(self, a: int) -> bool {
        self.vaddr <= a < self.vaddr + self.size
    }

    /// Whether physical address `a` lies inside the region.
    pub open spec fn holds_paddr(self, a: int) -> bool {
        self.paddr <= a < self.paddr + self.size
    }
}

/// The part `[0, offset)` that `split` hands out.
pub open spec fn split_front(r: Region, offset: nat) -> Region {
    Region { vaddr: r.vaddr, paddr: r.paddr, size: offset }
}

/// The part `[offset, size)` that `split` leaves behind.
pub open spec fn split_back(r: Region, offset: nat) -> Region {
    Region { vaddr: r.vaddr + offset, paddr: r.paddr + offset, size: (r.size - offset) as nat }
}

/// A contiguous range of physical memory, mapped into the CPU's address space.
#[derive(Debug, Clone, Copy)]
pub struct PMem {
    vaddr: u64,
    paddr: u32,
    /// Size in bytes
    size: usize,
}

impl View for PMem {
    type V = Region;

    closed spec fn view(&self) -> Region {
        Region { vaddr: self.vaddr as nat, paddr: self.paddr as nat, size: self.size as nat }
    }
}

impl PMem {
    /// Well-formed: both addresses are nonzero and the region does not run
    /// past the end of either address space.
    pub open spec fn wf(&self) -> bool {
        self@.fits()
    }

    /// Describes the region at `vaddr` / `paddr` of `size` bytes.
    pub fn new(vaddr: u64, paddr: u32, size: usize) -> (r: Self)
        requires
            vaddr != 0,
            paddr != 0,
            size != 0,
            vaddr + size <= u64::MAX + 1,
            paddr + size <= u32::MAX + 1,
        ensures
            r@ == (Region { vaddr: vaddr as nat, paddr: paddr as nat, size: size as nat }),
            r.wf(),
    {
        PMem { vaddr, paddr, size }
    }

    /// Splits off the first `offset` bytes: they are returned as a region of
    /// their own, and `self` keeps what follows them.
    pub fn split(&mut self, offset: usize) -> (front: Self)
        requires
            old(self).wf(),
            offset < old(self)@.size,
        ensures
            front@ == split_front(old(self)@, offset as nat),
            final(self)@ == split_back(old(self)@, offset as nat),
            front.wf(),
            final(self).wf(),
    {
        let front = PMem { vaddr: self.vaddr, paddr: self.paddr, size: offset };
        self.vaddr = self.vaddr + offset as u64;
        self.paddr = self.paddr + offset as u32;
        self.size = self.size - offset;
        front
    }

    /// Shrinks the region to its first `size` bytes.
    pub fn reduce_to(&mut self, size: usize)
        requires
            old(self).wf(),
            size <= old(self)@.size,
        ensures
            final(self)@ == (Region { size: size as nat, ..old(self)@ }),
            final(self).wf(),
    {
        self.size = size;
    }

    /// Whether `count` items of `item_size` bytes each fit in the region.
    /// A typed view of the region must hold no more than this allows.
    pub fn holds(&self, count: usize, item_size: usize) -> (r: bool)
        ensures
            r == (count * item_size <= self@.size),
    {
        if item_size == 0 {
            true
        } else {
            let q = self.size / item_size;
            proof {
                let (c, k, n) = (count as int, item_size as int, self.size as int);
                assert(c <= q <==> c * k <= n) by (nonlinear_arith)
                    requires
                        k > 0,
                        q == n / k,
                        n >= 0,
                        c >= 0,
                ;
            }
            count <= q
        }
    }

    pub fn vaddr(&self) -> (r: u64)
        ensures
            r == self@.vaddr,
    {
        self.vaddr
    }

    pub fn paddr(&self) -> (r: u32)
        ensures
            r == self@.paddr,
    {
        self.paddr
    }

    pub fn size(&self) -> (r: usize)
        ensures
            r == self@.size,
    {
        self.size
    }

    /// The address under which the DMA engine reaches the region.
    pub fn bus_paddr(&self) -> (r: u32)
        ensures
            r == bus_alias(self@.paddr as u32),
    {
        bus_address(self.paddr)
    }
}

/// Splitting a region at `offset` yields two regions whose sizes add up to
/// the size of the whole, that are contiguous in both address spaces, that do
/// not overlap, and that together cover exactly the whole region.
pub proof fn lemma_split_partitions(r: Region, offset: nat)
    requires
        r.fits(),
        offset < r.size,
    ensures
        split_front(r, offset).size + split_back(r, offset).size == r.size,
        split_front(r, offset).vaddr + split_front(r, offset).size == split_back(r, offset).vaddr,
        split_front(r, offset).paddr + split_front(r, offset).size == split_back(r, offset).paddr,
        forall|a: int|
            !(#[trigger] split_front(r, offset).holds_vaddr(a) && split_back(r, offset).holds_vaddr(a)),
        forall|a: int|
            !(#[trigger] split_front(r, offset).holds_paddr(a) && split_back(r, offset).holds_paddr(a)),
        forall|a: int|
            #[trigger] r.holds_vaddr(a) <==> (split_front(r, offset).holds_vaddr(a) || split_back(
                r,
                offset,
            ).holds_vaddr(a)),
        forall|a: int|
            #[trigger] r.holds_paddr(a) <==> (split_front(r, offset).holds_paddr(a) || split_back(
                r,
                offset,
            ).holds_paddr(a)),
{
}

/// A region described by an address that already carries the alias bits
/// has the same bus address as the region it was taken from: the alias is
/// not added twice.
pub proof fn lemma_bus_paddr_idempotent(p: PMem, q: PMem)
    requires
        q@.paddr == bus_alias(p@.paddr as u32),
    ensures
        bus_alias(q@.paddr as u32) == bus_alias(p@.paddr as u32),
{
    lemma_bus_alias_idempotent(p@.paddr as u32);
}

} // verus!
