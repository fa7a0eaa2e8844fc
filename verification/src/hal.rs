use vstd::prelude::*;

use crate::addr::pa_val;

verus! {

/// The low-level OS-dependent helpers that a platform must provide for
/// [`crate::SMMUv3`].
///
/// Two fixed platform choices set the driver's geometry: the StreamID width
/// in bits (the Stream Table holds `2^sid_bits_set()` entries) and the log2
/// size of the Command Queue and Event Queue.
pub trait PagingHandler: Sized {
    /// StreamID width in bits; governs Stream Table size and alignment.
    spec fn spec_sid_bits_set() -> u32;

    /// Command/Event Queue log2 size, bounded by the hardware-advertised
    /// `IDR1.CMDQS` and by 19.
    spec fn spec_cmdq_eventq_bits_set() -> u32;

    /// StreamID width in bits, as an executable value.
    fn sid_bits_set() -> (r: u32)
        ensures
            r == Self::spec_sid_bits_set(),
    ;

    /// Command/Event Queue log2 size, as an executable value.
    fn cmdq_eventq_bits_set() -> (r: u32)
        ensures
            r == Self::spec_cmdq_eventq_bits_set(),
    ;

    /// Request to allocate `num_pages` contiguous 4 KiB-sized, 4 KiB-aligned
    /// physical pages.
    fn alloc_pages(num_pages: usize) -> (r: Option<memory_addr::PhysAddr>)
        ensures
            r is Some ==> pa_val(r->Some_0) % 4096 == 0,
    ;

    /// Request to free previously allocated physical pages.
    fn dealloc_pages(paddr: memory_addr::PhysAddr, num_pages: usize);

    /// Returns a virtual address that maps to the given physical address.
    fn phys_to_virt(paddr: memory_addr::PhysAddr) -> memory_addr::VirtAddr;

    /// Clean CPU caches over `[start, start + len)` down to the point of
    /// shared access with the SMMU.
    fn flush(start: usize, len: usize);
}

} // verus!
