use vstd::prelude::*;

verus! {

/// The address wrapped by a `memory_addr::PhysAddr`: the `usize` that
/// `PhysAddr::as_usize` hands back.
pub uninterp spec fn pa_val(pa: memory_addr::PhysAddr) -> usize;

/// Declares memory_addr's `PhysAddr` (an opaque wrapper around a `usize`)
/// so that signatures and fields can carry it.
#[verifier::external_type_specification]
#[verifier::external_body]
pub struct ExPhysAddr(memory_addr::PhysAddr);

/// Declares memory_addr's `VirtAddr` for the platform handler's signatures.
#[verifier::external_type_specification]
#[verifier::external_body]
pub struct ExVirtAddr(memory_addr::VirtAddr);

/// Relies on memory_addr's `PhysAddr::as_usize`: it returns the wrapped
/// address unchanged.
pub assume_specification[ memory_addr::PhysAddr::as_usize ](
    pa: memory_addr::PhysAddr,
) -> (r: usize)
    ensures
        r == pa_val(pa),
;

/// Relies on memory_addr's `PhysAddr::from_usize`: it wraps the given address
/// unchanged.
pub assume_specification[ memory_addr::PhysAddr::from_usize ](addr: usize) -> (r:
    memory_addr::PhysAddr)
    ensures
        pa_val(r) == addr,
;

} // verus!
