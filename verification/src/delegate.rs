//! What a wrapper hands on to its value: equality, ordering and hashing,
//! for a value type with no alignment requirement.
//!
//! All of them look at the value alone. Where a wrapper is stored plays no
//! part: two wrappers at different addresses that hold equal values are
//! equal and hash alike.

use crate::align::Unaligned;
use crate::unalign::Unalign;
use core::cmp::Ordering;
use core::hash::{Hash, Hasher};
use core::ops::Deref;
use vstd::prelude::*;
use vstd::std_specs::cmp::{
    OrdSpec, PartialEqSpec, PartialEqSpecImpl, PartialOrdSpec, PartialOrdSpecImpl,
};

verus! {

impl<T: Unaligned + PartialEq> PartialEq for Unalign<T> {
    fn eq(&self, other: &Unalign<T>) -> (r: bool) {
        self.deref().eq(other.deref())
    }
}

impl<T: Unaligned + PartialEq> PartialEqSpecImpl for Unalign<T> {
    open spec fn obeys_eq_spec() -> bool {
        T::obeys_eq_spec()
    }

    open spec fn eq_spec(&self, other: &Unalign<T>) -> bool {
        self@.eq_spec(&other@)
    }
}

impl<T: Unaligned + Eq> Eq for Unalign<T> {

}

impl<T: Unaligned + PartialOrd> PartialOrd for Unalign<T> {
    fn partial_cmp(&self, other: &Unalign<T>) -> (r: Option<Ordering>) {
        self.deref().partial_cmp(other.deref())
    }
}

impl<T: Unaligned + PartialOrd> PartialOrdSpecImpl for Unalign<T> {
    open spec fn obeys_partial_cmp_spec() -> bool {
        T::obeys_partial_cmp_spec()
    }

    open spec fn partial_cmp_spec(&self, other: &Unalign<T>) -> Option<Ordering> {
        self@.partial_cmp_spec(&other@)
    }
}

impl<T: Unaligned + Ord> Unalign<T> {
    /// Compares two wrappers by their values, as `T`'s total order does.
    pub fn cmp(&self, other: &Unalign<T>) -> (r: Ordering)
        ensures
            T::obeys_cmp_spec() ==> r == self@.cmp_spec(&other@),
    {
        self.deref().cmp(other.deref())
    }
}

impl<T: Unaligned + Hash> Hash for Unalign<T> {
    /// Calls `core::hash::Hash::hash` on the wrapped value with the
    /// caller's hasher, and feeds the hasher nothing else. No claim is made
    /// about the hasher's state afterwards.
    #[verifier::external_body]
    fn hash<H: Hasher>(&self, state: &mut H) {
        self.val.hash(state)
    }
}

} // verus!
