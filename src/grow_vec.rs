use vstd::prelude::*;

verus! {

/// A vector that can be appended to and mutably indexed, and that never
/// removes elements. It is the storage an arena is built on.
///
/// The contents are modelled by `items`; `bound` is the number of elements the
/// store can hold, or `None` when it grows without limit.
pub trait GrowVec<T>: Sized {
    /// Error returned when the store is full. It carries the rejected value.
    type CapacityError;

    /// The elements pushed so far, in order of insertion.
    spec fn items(&self) -> Seq<T>;

    /// The most elements the store can hold, or `None` if it is unbounded.
    spec fn bound(&self) -> Option<nat>;

    /// The value that a capacity error hands back.
    spec fn rejected(err: &Self::CapacityError) -> T;

    /// Number of elements pushed so far.
    fn count(&self) -> (n: usize)
        ensures
            n == self.items().len(),
    ;

    /// Exclusive access to the element at `idx`.
    fn slot_mut(&mut self, idx: usize) -> (r: &mut T)
        requires
            idx < old(self).items().len(),
        ensures
            *r == old(self).items()[idx as int],
            final(self).bound() == old(self).bound(),
            final(self).items() == old(self).items().update(idx as int, *final(r)),
    ;

    /// Exclusive access to the elements from `start` on, as one slice. Once the
    /// slice is released, the store holds the elements before `start` followed
    /// by what the slice then holds (a slice keeps its length).
    fn tail_mut(&mut self, start: usize) -> (r: &mut [T])
        requires
            start <= old(self).items().len(),
        ensures
            r@ == old(self).items().subrange(start as int, old(self).items().len() as int),
            final(r)@.len() == r@.len() ==> {
                &&& final(self).bound() == old(self).bound()
                &&& final(self).items() == old(self).items().subrange(0, start as int)
                    + final(r)@
            },
    ;

    /// Appends `value`, or hands it back inside the error when the store is full.
    fn try_push(&mut self, value: T) -> (r: Result<(), Self::CapacityError>)
        ensures
            final(self).bound() == old(self).bound(),
            r is Err <==> is_full(old(self).items().len(), old(self).bound()),
            r is Ok ==> final(self).items() == old(self).items().push(value),
            r is Err ==> final(self).items() == old(self).items() && Self::rejected(
                &r->Err_0,
            ) == value,
    ;
}

/// Whether a store holding `len` elements has reached `bound`.
pub open spec fn is_full(len: nat, bound: Option<nat>) -> bool {
    match bound {
        Some(cap) => len >= cap,
        None => false,
    }
}

impl<T> GrowVec<T> for Vec<T> {
    type CapacityError = core::convert::Infallible;

    open spec fn items(&self) -> Seq<T> {
        self@
    }

    open spec fn bound(&self) -> Option<nat> {
        None
    }

    open spec fn rejected(err: &core::convert::Infallible) -> T {
        arbitrary()
    }

    fn count(&self) -> (n: usize) {
        self.len()
    }

    fn slot_mut(&mut self, idx: usize) -> (r: &mut T) {
        &mut self[idx]
    }

    fn tail_mut(&mut self, start: usize) -> (r: &mut [T]) {
        let (_head, tail) = self.as_mut_slice().split_at_mut(start);
        tail
    }

    fn try_push(&mut self, value: T) -> (r: Result<(), core::convert::Infallible>) {
        self.push(value);
        Ok(())
    }
}

/// The error of a full fixed-capacity store: it hands back the value that was
/// refused.
#[derive(Clone, Copy, Debug, PartialEq, Eq)]
pub struct CapacityError<T> {
    element: T,
}

impl<T> CapacityError<T> {
    /// The value that was refused.
    pub closed spec fn spec_element(&self) -> T {
        self.element
    }

    /// Wraps a refused value.
    pub fn new(element: T) -> (r: Self)
        ensures
            r.spec_element() == element,
    {
        CapacityError { element }
    }

    /// Takes the refused value back.
    pub fn element(self) -> (r: T)
        ensures
            r == self.spec_element(),
    {
        self.element
    }
}

/// A vector of at most `CAP` elements that owns its storage.
#[derive(Debug)]
pub struct FixedVec<T, const CAP: usize> {
    xs: Vec<T>,
}

impl<T, const CAP: usize> FixedVec<T, CAP> {
    /// An empty vector with room for `CAP` elements.
    pub fn new() -> (r: Self)
        ensures
            r.items() == Seq::<T>::empty(),
    {
        FixedVec { xs: Vec::new() }
    }

    /// Number of elements it can hold.
    pub fn capacity(&self) -> (r: usize)
        ensures
            r == CAP,
    {
        CAP
    }
}

impl<T, const CAP: usize> Default for FixedVec<T, CAP> {
    fn default() -> (r: Self)
        ensures
            r.items() == Seq::<T>::empty(),
    {
        Self::new()
    }
}

impl<T, const CAP: usize> GrowVec<T> for FixedVec<T, CAP> {
    type CapacityError = CapacityError<T>;

    closed spec fn items(&self) -> Seq<T> {
        self.xs@
    }

    open spec fn bound(&self) -> Option<nat> {
        Some(CAP as nat)
    }

    open spec fn rejected(err: &CapacityError<T>) -> T {
        err.spec_element()
    }

    fn count(&self) -> (n: usize) {
        self.xs.len()
    }

    fn slot_mut(&mut self, idx: usize) -> (r: &mut T) {
        &mut self.xs[idx]
    }

    fn tail_mut(&mut self, start: usize) -> (r: &mut [T]) {
        let (_head, tail) = self.xs.as_mut_slice().split_at_mut(start);
        tail
    }

    fn try_push(&mut self, value: T) -> (r: Result<(), CapacityError<T>>) {
        if self.xs.len() < CAP {
            self.xs.push(value);
            Ok(())
        } else {
            Err(CapacityError::new(value))
        }
    }
}

/// A vector whose storage is a slice lent by the caller. Its capacity is the
/// slice's length; slots past the count hold the caller's placeholder values,
/// which a push replaces.
#[derive(Debug)]
pub struct SliceVecRaw<'a, T> {
    storage: &'a mut [T],
    len: usize,
}

impl<'a, T> SliceVecRaw<'a, T> {
    /// Number of slots in use. Pushes never take the count past the slice's
    /// end; since a borrowed slice's length is not carried as an invariant
    /// here, the count is read clamped to that length.
    spec fn filled(&self) -> nat {
        if self.len <= self.storage@.len() {
            self.len as nat
        } else {
            self.storage@.len()
        }
    }

    /// An empty vector that stores its elements in `storage`.
    pub fn new(storage: &'a mut [T]) -> (r: Self)
        ensures
            r.items() == Seq::<T>::empty(),
            r.bound() == Some(old(storage)@.len()),
    {
        SliceVecRaw { storage, len: 0 }
    }

    /// Number of elements it can hold.
    pub fn capacity(&self) -> (r: usize)
        ensures
            Some(r as nat) == self.bound(),
    {
        self.storage.len()
    }
}

impl<'a, T> GrowVec<T> for SliceVecRaw<'a, T> {
    type CapacityError = T;

    closed spec fn items(&self) -> Seq<T> {
        self.storage@.subrange(0, self.filled() as int)
    }

    closed spec fn bound(&self) -> Option<nat> {
        Some(self.storage@.len())
    }

    open spec fn rejected(err: &T) -> T {
        *err
    }

    fn count(&self) -> (n: usize) {
        if self.len <= self.storage.len() {
            self.len
        } else {
            self.storage.len()
        }
    }

    fn slot_mut(&mut self, idx: usize) -> (r: &mut T) {
        &mut self.storage[idx]
    }

    fn tail_mut(&mut self, start: usize) -> (r: &mut [T]) {
        let used = if self.len <= self.storage.len() {
            self.len
        } else {
            self.storage.len()
        };
        let (filled, _spare) = self.storage.split_at_mut(used);
        let (_head, tail) = filled.split_at_mut(start);
        tail
    }

    fn try_push(&mut self, value: T) -> (r: Result<(), T>) {
        if self.len < self.storage.len() {
            self.storage[self.len] = value;
            self.len = self.len + 1;
            Ok(())
        } else {
            Err(value)
        }
    }
}

} // verus!
