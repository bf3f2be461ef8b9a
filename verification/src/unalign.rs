//! A value stored with no alignment requirement.

use crate::align::{
    aligned_to, lemma_align_one_is_always_aligned, lemma_zero_is_aligned, spec_aligned_to,
    Unaligned,
};
use core::ops::{Deref, DerefMut};
use vstd::prelude::*;

verus! {

/// A `T` together with the byte address at which its image is stored.
///
/// The address is a plain number: the wrapper never reads or writes through
/// it. It only decides whether typed access by reference is allowed, which
/// is the case exactly when the address is a multiple of `T`'s alignment.
/// Access by value ([`Unalign::get`], [`Unalign::into_inner`],
/// [`Unalign::set`]) and access inside a callback ([`Unalign::update`]) work
/// at every address.
pub struct Unalign<T> {
    pub(crate) addr: usize,
    pub(crate) val: T,
}

impl<T> Unalign<T> {
    /// The value that the wrapper holds.
    pub closed spec fn view(&self) -> T {
        self.val
    }

    /// The address of the first byte of the wrapper, which is also the
    /// address of the first byte of the value in it.
    pub closed spec fn addr(&self) -> usize {
        self.addr
    }

    /// The wrapper that holds `val` at address `addr`.
    pub closed spec fn spec_new_at(val: T, addr: usize) -> Unalign<T> {
        Unalign { addr, val }
    }

    /// The wrapper's address satisfies `T`'s alignment requirement.
    pub open spec fn is_aligned(&self) -> bool {
        spec_aligned_to::<T>(self.addr())
    }

    /// Taking the value out of a freshly made wrapper gives back the value
    /// that went in, whatever the address; and the wrapper reports the
    /// address that it was made at.
    pub proof fn lemma_new_into_inner(val: T, addr: usize)
        ensures
            Self::spec_new_at(val, addr)@ == val,
            Self::spec_new_at(val, addr).addr() == addr,
    {
    }

    /// Constructs a new `Unalign` at address 0, the start of its buffer,
    /// where it is aligned whatever `T` is.
    pub fn new(val: T) -> (u: Unalign<T>)
        ensures
            u == Self::spec_new_at(val, 0),
            u@ == val,
            u.addr() == 0,
            u.is_aligned(),
    {
        proof {
            lemma_zero_is_aligned::<T>();
        }
        Unalign { addr: 0, val }
    }

    /// Constructs a new `Unalign` whose image starts at address `addr`.
    pub fn new_at(val: T, addr: usize) -> (u: Unalign<T>)
        ensures
            u == Self::spec_new_at(val, addr),
            u@ == val,
            u.addr() == addr,
    {
        Unalign { addr, val }
    }

    /// Consumes `self`, returning the inner `T`.
    pub fn into_inner(self) -> (val: T)
        ensures
            val == self@,
    {
        self.val
    }

    /// Attempts to return a reference to the wrapped `T`, failing if `self`
    /// is not properly aligned.
    pub fn try_deref(&self) -> (r: Option<&T>)
        ensures
            r.is_some() <==> self.is_aligned(),
            r matches Some(t) ==> *t == self@,
    {
        if !aligned_to::<T>(self.addr) {
            return None;
        }
        Some(&self.val)
    }

    /// Attempts to return a mutable reference to the wrapped `T`, failing if
    /// `self` is not properly aligned. On failure the wrapper is unchanged;
    /// on success whatever is written through the reference is the
    /// wrapper's new value, at the same address.
    pub fn try_deref_mut(&mut self) -> (r: Option<&mut T>)
        ensures
            r.is_some() <==> old(self).is_aligned(),
            r matches Some(t) ==> *t == old(self)@ && final(self)@ == *final(t),
            r.is_none() ==> *final(self) == *old(self),
            final(self).addr() == old(self).addr(),
    {
        if !aligned_to::<T>(self.addr) {
            return None;
        }
        Some(&mut self.val)
    }

    /// Returns a reference to the wrapped `T` without checking alignment.
    /// The caller guarantees that the wrapper is aligned.
    pub fn deref_unchecked(&self) -> (t: &T)
        requires
            self.is_aligned(),
        ensures
            *t == self@,
    {
        &self.val
    }

    /// Returns a mutable reference to the wrapped `T` without checking
    /// alignment. The caller guarantees that the wrapper is aligned.
    pub fn deref_mut_unchecked(&mut self) -> (t: &mut T)
        requires
            old(self).is_aligned(),
        ensures
            *t == old(self)@,
            final(self)@ == *final(t),
            final(self).addr() == old(self).addr(),
    {
        &mut self.val
    }

    /// Gets the address of the inner `T`, which is the wrapper's own: the
    /// value sits at offset zero. The address is not necessarily a multiple
    /// of `T`'s alignment.
    pub fn get_ptr(&self) -> (p: usize)
        ensures
            p == self.addr(),
    {
        self.addr
    }

    /// Gets the address of the inner `T` from an exclusive borrow. The
    /// wrapper is left as it was.
    pub fn get_mut_ptr(&mut self) -> (p: usize)
        ensures
            p == old(self).addr(),
            *final(self) == *old(self),
    {
        self.addr
    }

    /// Sets the inner `T`, dropping the previous value. The wrapper stays
    /// where it is.
    pub fn set(&mut self, t: T)
        ensures
            final(self)@ == t,
            final(self).addr() == old(self).addr(),
    {
        self.val = t;
    }

    /// Updates the inner `T` by calling a function on it.
    ///
    /// The callback sees the value that the wrapper held on entry; what the
    /// callback leaves behind is the value that the wrapper holds on
    /// return. The callback never sees the wrapper's address, so it runs
    /// whether or not the wrapper is aligned.
    ///
    /// The callback works on the wrapper's own slot, so the value never
    /// leaves the wrapper: however the callback ends, the wrapper holds
    /// exactly one value, the one that the callback left there.
    pub fn update<O, F: FnOnce(&mut T) -> O>(&mut self, f: F) -> (ret: O)
        requires
            forall|t: &mut T| *t == old(self)@ ==> call_requires(f, (t,)),
        ensures
            exists|t: &mut T|
                *t == old(self)@ && *final(t) == final(self)@ && call_ensures(f, (t,), ret),
            final(self).addr() == old(self).addr(),
    {
        f(&mut self.val)
    }
}

impl<T: Unaligned> Deref for Unalign<T> {
    type Target = T;

    /// Returns a reference to the wrapped `T`. A `T` without an alignment
    /// requirement is aligned at every address, so this cannot fail.
    fn deref(&self) -> (t: &T)
        ensures
            *t == self@,
    {
        proof {
            T::lemma_align_is_one();
            lemma_align_one_is_always_aligned::<T>(self.addr);
        }
        self.deref_unchecked()
    }
}

impl<T: Unaligned> DerefMut for Unalign<T> {
    /// Returns a mutable reference to the wrapped `T`. A `T` without an
    /// alignment requirement is aligned at every address, so this cannot
    /// fail.
    fn deref_mut(&mut self) -> (t: &mut T)
        ensures
            *t == old(self)@,
            final(self)@ == *final(t),
            final(self).addr() == old(self).addr(),
    {
        proof {
            T::lemma_align_is_one();
            lemma_align_one_is_always_aligned::<T>(self.addr);
        }
        self.deref_mut_unchecked()
    }
}

impl<T: Copy> Clone for Unalign<T> {
    /// A wrapper is copied as a whole: the copy holds the same value and
    /// records the same address.
    fn clone(&self) -> (c: Unalign<T>)
        ensures
            c == *self,
    {
        *self
    }
}

impl<T: Copy> Copy for Unalign<T> {

}

impl<T: Default> Default for Unalign<T> {
    /// The default value of `T`, at address 0.
    fn default() -> (u: Unalign<T>)
        ensures
            u.addr() == 0,
            T::default.ensures((), u@),
    {
        Unalign::new(T::default())
    }
}

impl<T: Copy> Unalign<T> {
    /// Gets a copy of the inner `T`.
    pub fn get(&self) -> (val: T)
        ensures
            val == self@,
    {
        self.val
    }
}

} // verus!
