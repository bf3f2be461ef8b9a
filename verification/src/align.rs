//! The alignment test: is an address a multiple of a type's alignment?

use vstd::arithmetic::div_mod::{
    lemma_add_mod_noop, lemma_mod_is_zero, lemma_mod_twice, lemma_small_mod,
};
use vstd::layout::{
    align_nonzero, align_of, align_of_u8, align_properties, layout_of_primitives,
    layout_of_unit_tuple, size_of,
};
use vstd::prelude::*;

verus! {

/// `addr` satisfies the alignment requirement of `T`: it is a multiple of
/// `T`'s alignment.
pub open spec fn spec_aligned_to<T>(addr: usize) -> bool {
    (addr as nat) % align_of::<T>() == 0
}

/// Reports whether `addr` is a multiple of the alignment that `T` requires.
pub fn aligned_to<T>(addr: usize) -> (aligned: bool)
    ensures
        aligned == spec_aligned_to::<T>(addr),
{
    proof {
        broadcast use align_nonzero;

    }
    let align: usize = core::mem::align_of::<T>();
    addr % align == 0
}

/// A type whose alignment is 1 is aligned at every address.
pub proof fn lemma_align_one_is_always_aligned<T>(addr: usize)
    requires
        align_of::<T>() == 1,
    ensures
        spec_aligned_to::<T>(addr),
{
}

/// An address reached from an aligned one is aligned exactly when the
/// distance between the two is a multiple of the alignment.
pub proof fn lemma_aligned_step<T>(addr: usize, step: usize)
    requires
        spec_aligned_to::<T>(addr),
        addr + step <= usize::MAX,
    ensures
        spec_aligned_to::<T>((addr + step) as usize) <==> (step as nat) % align_of::<T>() == 0,
{
    broadcast use align_nonzero;

    let a = align_of::<T>() as int;
    lemma_add_mod_noop(addr as int, step as int, a);
    lemma_mod_twice(step as int, a);
}

/// The byte after an aligned address is aligned only for a type whose
/// alignment is 1. So a field that follows a one-byte field, in a structure
/// aligned for `T`, is misaligned for every `T` with a larger alignment.
pub proof fn lemma_one_past_aligned<T>(addr: usize)
    requires
        spec_aligned_to::<T>(addr),
        addr < usize::MAX,
    ensures
        spec_aligned_to::<T>((addr + 1) as usize) <==> align_of::<T>() == 1,
{
    broadcast use align_nonzero;

    lemma_aligned_step::<T>(addr, 1);
    if align_of::<T>() > 1 {
        lemma_small_mod(1, align_of::<T>());
    }
}

/// Address 0 is aligned for every type.
pub proof fn lemma_zero_is_aligned<T>()
    ensures
        spec_aligned_to::<T>(0),
{
    broadcast use align_nonzero;

}

/// A type of size 1 has alignment 1: the alignment is positive and divides
/// the size.
pub proof fn lemma_size_one_align_one<T>()
    requires
        size_of::<T>() == 1,
    ensures
        align_of::<T>() == 1,
{
    broadcast use align_properties, align_nonzero;

    if align_of::<T>() > 1 {
        lemma_mod_is_zero(1, align_of::<T>());
    }
}

/// A type with no alignment requirement: its alignment is 1, so a value of
/// it is aligned wherever it is stored.
///
/// The proof method is the implementer's side of the bargain. Code that is
/// generic over `T: Unaligned` relies on it to hand out references without
/// looking at any address.
pub trait Unaligned: Sized {
    /// The alignment of `Self` is 1.
    proof fn lemma_align_is_one()
        ensures
            align_of::<Self>() == 1,
    ;
}

impl Unaligned for u8 {
    proof fn lemma_align_is_one() {
        broadcast use align_of_u8;

    }
}

impl Unaligned for i8 {
    proof fn lemma_align_is_one() {
        broadcast use layout_of_primitives;

        lemma_size_one_align_one::<i8>();
    }
}

impl Unaligned for bool {
    proof fn lemma_align_is_one() {
        broadcast use layout_of_primitives;

        lemma_size_one_align_one::<bool>();
    }
}

impl Unaligned for () {
    proof fn lemma_align_is_one() {
        broadcast use layout_of_unit_tuple;

    }
}

} // verus!
