//! Physical and bus address coordinates.
//!
//! The DMA engine and the VideoCore see memory through bus addresses. Setting
//! the alias bits routes a transaction through the L2-coherent alias, so
//! that the engine and the CPU agree on what memory holds.

use vstd::prelude::*;

verus! {

/// Alias bits of the L2-coherent (non-allocating) bus alias.
pub const ALIAS_4_L2_COHERENT: u32 = 0x4000_0000;

/// Mask that strips the alias bits from a bus address.
pub const CPU_ADDRESS_MASK: u32 = 0x3FFF_FFFF;

/// The bus address under which the DMA engine reaches physical address `paddr`.
pub open spec fn bus_alias(paddr: u32) -> u32 {
    paddr | ALIAS_4_L2_COHERENT
}

/// The CPU physical address behind bus address `bus`.
pub open spec fn cpu_of(bus: u32) -> u32 {
    bus & CPU_ADDRESS_MASK
}

/// Applies the coherency alias bits to a physical address.
pub fn bus_address(paddr: u32) -> (r: u32)
    ensures
        r == bus_alias(paddr),
{
    paddr | ALIAS_4_L2_COHERENT
}

/// Strips the alias bits from a bus address.
pub fn cpu_address(bus: u32) -> (r: u32)
    ensures
        r == cpu_of(bus),
{
    bus & CPU_ADDRESS_MASK
}

/// Applying the alias twice gives the same address as applying it once.
pub proof fn lemma_bus_alias_idempotent(paddr: u32)
    ensures
        bus_alias(bus_alias(paddr)) == bus_alias(paddr),
{
    assert((paddr | 0x4000_0000u32) | 0x4000_0000u32 == paddr | 0x4000_0000u32) by (bit_vector);
}

/// A physical address below the alias bits survives the trip to the bus and
/// back: masking the alias out of `bus_alias(p)` gives `p` again.
pub proof fn lemma_cpu_of_bus_alias(paddr: u32)
    requires
        paddr < ALIAS_4_L2_COHERENT,
    ensures
        cpu_of(bus_alias(paddr)) == paddr,
{
    assert((paddr | 0x4000_0000u32) & 0x3FFF_FFFFu32 == paddr) by (bit_vector)
        requires
            paddr < 0x4000_0000u32,
    ;
}

} // verus!
