//! Storage that is shaped like a `T` but need not hold a `T` yet.

use vstd::prelude::*;

verus! {

/// Storage for one sized `T` with no constraint on its contents: either
/// nothing has been written yet, or it holds a value.
pub enum RawSlot<T> {
    /// Nothing has been written.
    Uninit,
    /// The storage holds this value.
    Init(T),
}

impl<T: Copy> Clone for RawSlot<T> {
    /// Storage for a `Copy` type is copied as it is, written or not.
    fn clone(&self) -> (c: RawSlot<T>)
        ensures
            c == *self,
    {
        *self
    }
}

impl<T: Copy> Copy for RawSlot<T> {

}

/// A type which can be wrapped in [`MaybeUninit`].
///
/// An implementation names the storage type that stands for `Self` while no
/// valid `Self` is known to be there, says when such storage holds a given
/// value, and converts a reference to initialized storage into a reference
/// to the value in it. The conversions are the implementer's obligation:
/// callers rely on their contracts alone.
pub trait AsMaybeUninit {
    /// Storage with the shape of `Self` and no constraint on its contents.
    type MaybeUninit: ?Sized;

    /// The storage `m` is initialized and holds exactly the value `v`.
    spec fn holds(m: &Self::MaybeUninit, v: &Self) -> bool;

    /// Storage holds at most one value.
    proof fn lemma_holds_unique(m: &Self::MaybeUninit, v1: &Self, v2: &Self)
        requires
            Self::holds(m, v1),
            Self::holds(m, v2),
        ensures
            v1 == v2,
    ;

    /// Converts a reference to initialized storage into a reference to the
    /// value that it holds.
    fn raw_from_maybe_uninit(m: &Self::MaybeUninit) -> (v: &Self)
        requires
            exists|w: &Self| Self::holds(m, w),
        ensures
            Self::holds(m, v),
    ;

    /// Converts a mutable reference to initialized storage into a mutable
    /// reference to the value that it holds. The storage stays initialized,
    /// and holds whatever is written through the returned reference.
    fn raw_mut_from_maybe_uninit(m: &mut Self::MaybeUninit) -> (v: &mut Self)
        requires
            exists|w: &Self| Self::holds(old(m), w),
        ensures
            Self::holds(old(m), &*v),
            Self::holds(final(m), &*final(v)),
    ;
}

impl<T> AsMaybeUninit for T {
    type MaybeUninit = RawSlot<T>;

    open spec fn holds(m: &RawSlot<T>, v: &T) -> bool {
        *m == RawSlot::Init(*v)
    }

    proof fn lemma_holds_unique(m: &RawSlot<T>, v1: &T, v2: &T) {
    }

    fn raw_from_maybe_uninit(m: &RawSlot<T>) -> (v: &T) {
        match m {
            RawSlot::Init(v) => v,
            RawSlot::Uninit => vstd::pervasive::unreached(),
        }
    }

    fn raw_mut_from_maybe_uninit(m: &mut RawSlot<T>) -> (v: &mut T) {
        match m {
            RawSlot::Init(v) => v,
            RawSlot::Uninit => vstd::pervasive::unreached(),
        }
    }
}

/// Storage for a `T` that need not hold a valid `T`.
///
/// Reading it as a `T` is allowed only once it is initialized; every
/// operation that does so says this in its precondition.
pub struct MaybeUninit<T: AsMaybeUninit + ?Sized> {
    inner: T::MaybeUninit,
}

impl<T: AsMaybeUninit + ?Sized> MaybeUninit<T> {
    /// The container is initialized and holds exactly the value `v`.
    pub closed spec fn holds(&self, v: &T) -> bool {
        T::holds(&self.inner, v)
    }

    /// The container is initialized: it holds some value.
    pub open spec fn is_init(&self) -> bool {
        exists|v: &T| self.holds(v)
    }

    /// A container holds at most one value.
    pub proof fn lemma_holds_unique(&self, v1: &T, v2: &T)
        requires
            self.holds(v1),
            self.holds(v2),
        ensures
            v1 == v2,
    {
        T::lemma_holds_unique(&self.inner, v1, v2);
    }

    /// Gets a shared reference to the contained value. The caller
    /// guarantees that the container is initialized.
    pub fn assume_init_ref(&self) -> (v: &T)
        requires
            self.is_init(),
        ensures
            self.holds(v),
    {
        T::raw_from_maybe_uninit(&self.inner)
    }

    /// Gets a mutable reference to the contained value. The caller
    /// guarantees that the container is initialized. The container stays
    /// initialized and holds whatever is written through the reference.
    pub fn assume_init_mut(&mut self) -> (v: &mut T)
        requires
            old(self).is_init(),
        ensures
            old(self).holds(&*v),
            final(self).holds(&*final(v)),
    {
        T::raw_mut_from_maybe_uninit(&mut self.inner)
    }
}

impl<T: Copy> Clone for MaybeUninit<T> {
    /// A container for a `Copy` type is copied as it is, initialized or
    /// not.
    fn clone(&self) -> (c: MaybeUninit<T>)
        ensures
            c == *self,
    {
        *self
    }
}

impl<T: Copy> Copy for MaybeUninit<T> {

}

impl<T> MaybeUninit<T> {
    /// What the container holds: `None` while uninitialized.
    pub closed spec fn view(&self) -> Option<T> {
        match self.inner {
            RawSlot::Uninit => None,
            RawSlot::Init(v) => Some(v),
        }
    }

    /// The container after `val` has been written into it.
    pub closed spec fn spec_write(self, val: T) -> MaybeUninit<T> {
        MaybeUninit { inner: RawSlot::Init(val) }
    }

    /// Creates a new `MaybeUninit<T>` in an uninitialized state.
    pub fn uninit() -> (m: MaybeUninit<T>)
        ensures
            m@ is None,
            !m.is_init(),
    {
        MaybeUninit { inner: RawSlot::Uninit }
    }

    /// Writes `val` into the container, which is initialized from then on.
    /// What the container held before is dropped.
    pub fn write(&mut self, val: T)
        ensures
            *final(self) == old(self).spec_write(val),
            final(self)@ == Some(val),
    {
        self.inner = RawSlot::Init(val);
    }

    /// Extracts the value from the container. The caller guarantees that
    /// the container is initialized.
    pub fn assume_init(self) -> (val: T)
        requires
            self@ is Some,
        ensures
            self@ == Some(val),
    {
        match self.inner {
            RawSlot::Init(v) => v,
            RawSlot::Uninit => vstd::pervasive::unreached(),
        }
    }

    /// For a sized `T`, holding `v` means that the view is `Some(v)`, and
    /// being initialized means that the view is not `None`.
    pub proof fn lemma_holds_view(&self, v: &T)
        ensures
            self.holds(v) <==> self@ == Some(*v),
            self.is_init() <==> self@ is Some,
    {
        if self@ is Some {
            let w = self@->0;
            assert(self.holds(&w));
        }
    }

    /// Writing `val` into a container, whatever it held, leaves a
    /// container that is initialized and from which every read yields `val`
    /// and nothing else.
    pub proof fn lemma_write_then_read(self, val: T)
        ensures
            self.spec_write(val)@ == Some(val),
            self.spec_write(val).is_init(),
            self.spec_write(val).holds(&val),
            forall|w: &T| #[trigger] self.spec_write(val).holds(w) ==> *w == val,
    {
        let after = self.spec_write(val);
        assert(after.holds(&val));
    }
}

/// Every container of the sequence is initialized.
pub open spec fn all_init<T>(slots: Seq<MaybeUninit<T>>) -> bool {
    forall|i: int| 0 <= i < slots.len() ==> (#[trigger] slots[i])@ is Some
}

/// The values that a sequence of initialized containers holds, in order.
pub open spec fn values_of<T>(slots: Seq<MaybeUninit<T>>) -> Seq<T> {
    Seq::new(slots.len(), |i: int| slots[i]@->0)
}

impl<T> MaybeUninit<T> {
    /// Creates a sequence of `len` containers, none of them initialized.
    /// Each can then be written and read on its own.
    pub fn uninit_vec(len: usize) -> (slots: Vec<MaybeUninit<T>>)
        ensures
            slots@.len() == len,
            forall|i: int| 0 <= i < len ==> (#[trigger] slots@[i])@ is None,
    {
        let mut slots: Vec<MaybeUninit<T>> = Vec::new();
        let mut n: usize = 0;
        while n < len
            invariant
                n <= len,
                slots@.len() == n,
                forall|i: int| 0 <= i < n ==> (#[trigger] slots@[i])@ is None,
            decreases len - n,
        {
            slots.push(MaybeUninit::uninit());
            n += 1;
        }
        slots
    }

    /// Extracts the values from a sequence of containers: as many values,
    /// in the same order. The caller guarantees that every container is
    /// initialized.
    pub fn vec_assume_init(slots: Vec<MaybeUninit<T>>) -> (vals: Vec<T>)
        requires
            all_init(slots@),
        ensures
            vals@ == values_of(slots@),
    {
        let ghost all = slots@;
        let mut rest = slots;
        let mut back: Vec<T> = Vec::new();
        while rest.len() > 0
            invariant
                all_init(all),
                rest@ == all.take(rest@.len() as int),
                rest@.len() + back@.len() == all.len(),
                forall|j: int|
                    0 <= j < back@.len() ==> all[all.len() - 1 - j]@ == Some(#[trigger] back@[j]),
            decreases rest@.len(),
        {
            match rest.pop() {
                Some(slot) => {
                    back.push(slot.assume_init());
                },
                None => {},
            }
        }
        let ghost turned = back@;
        let mut vals: Vec<T> = Vec::new();
        while back.len() > 0
            invariant
                turned.len() == all.len(),
                back@ == turned.take(back@.len() as int),
                back@.len() + vals@.len() == all.len(),
                forall|j: int|
                    0 <= j < turned.len() ==> all[all.len() - 1 - j]@ == Some(#[trigger] turned[j]),
                forall|i: int| 0 <= i < vals@.len() ==> all[i]@ == Some(#[trigger] vals@[i]),
            decreases back@.len(),
        {
            match back.pop() {
                Some(val) => {
                    vals.push(val);
                },
                None => {},
            }
        }
        assert(vals@ =~= values_of(all));
        vals
    }
}

} // verus!
