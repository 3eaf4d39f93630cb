//! An arena that hands out exclusive references to the values pushed into it,
//! over any backing store that implements [`GrowVec`].
use vstd::prelude::*;

mod grow_vec;
pub mod laws;

pub use grow_vec::{is_full, CapacityError, FixedVec, GrowVec, SliceVecRaw};

use core::marker::PhantomData;
use vstd::string::StringSliceAdditionalSpecFns;
use vstd::utf8::valid_utf8;

verus! {

/// An arena of objects of type `T`, stored in a backing store `V`.
///
/// Its contents are the backing store's elements, in order of allocation.
/// Allocating takes the arena exclusively: the reference it returns ends before
/// the next allocation, and the value stays in the arena, unchanged by later
/// allocations (see [`laws::lemma_earlier_values_kept`]).
pub struct Arena<T, V: GrowVec<T>> {
    backing: V,
    marker: PhantomData<T>,
}

impl<T, V: GrowVec<T>> View for Arena<T, V> {
    type V = Seq<T>;

    closed spec fn view(&self) -> Seq<T> {
        self.backing.items()
    }
}

impl<T, V: GrowVec<T>> Arena<T, V> {
    /// The capacity of the backing store, or `None` if it is unbounded.
    pub closed spec fn bound(&self) -> Option<nat> {
        self.backing.bound()
    }

    /// Builds an arena over `backing`, keeping the elements it already holds.
    pub fn new(backing: V) -> (r: Self)
        ensures
            r@ == backing.items(),
            r.bound() == backing.bound(),
    {
        Arena { backing, marker: PhantomData }
    }

    /// Number of values allocated in the arena.
    pub fn len(&self) -> (n: usize)
        ensures
            n == self@.len(),
    {
        self.backing.count()
    }

    /// Moves `value` into the arena and returns an exclusive reference to it,
    /// or hands `value` back inside the error when the backing store is full.
    pub fn allocate(&mut self, value: T) -> (r: Result<&mut T, V::CapacityError>)
        ensures
            final(self).bound() == old(self).bound(),
            r is Err <==> is_full(old(self)@.len(), old(self).bound()),
            r is Ok ==> *r->Ok_0 == value && final(self)@ == old(self)@.push(*final(r->Ok_0)),
            r is Err ==> final(self)@ == old(self)@ && V::rejected(&r->Err_0) == value,
    {
        match self.backing.try_push(value) {
            Ok(()) => {
                let n = self.backing.count();
                Ok(self.backing.slot_mut(n - 1))
            },
            Err(e) => Err(e),
        }
    }

    /// Gives the backing store back, with the values in order of allocation.
    pub fn into_vec(self) -> (r: V)
        ensures
            r.items() == self@,
            r.bound() == self.bound(),
    {
        self.backing
    }

    /// An iterator over exclusive references to the values allocated so far,
    /// in order of allocation. It holds the arena exclusively, so nothing can be
    /// allocated while it lives.
    pub fn iter_mut(&mut self) -> (it: IterMut<'_, T, V>)
        ensures
            it.well_formed(),
            it.index() == 0,
            it.snapshot() == old(self)@.len(),
            it.items() == old(self)@,
            it.bound() == old(self).bound(),
    {
        let len = self.backing.count();
        IterMut { idx: 0, len, backing: &mut self.backing, marker: PhantomData }
    }
}

impl<V: GrowVec<u8>> Arena<u8, V> {
    /// Copies the bytes of `s` into the arena, one after another, and returns
    /// them as an exclusive string slice. When the backing store fills up
    /// first, the error carries the byte that did not fit, and the bytes
    /// before it stay in the arena.
    pub fn alloc_str(&mut self, s: &str) -> (r: Result<&mut str, V::CapacityError>)
        ensures
            r is Err <==> s.spec_bytes().len() > 0 && is_full(
                (old(self)@.len() + s.spec_bytes().len() - 1) as nat,
                old(self).bound(),
            ),
            r is Ok ==> {
                &&& r->Ok_0@ == s@
                &&& final(r->Ok_0).spec_bytes().len() == s.spec_bytes().len() ==> {
                    &&& final(self).bound() == old(self).bound()
                    &&& final(self)@ == old(self)@ + final(r->Ok_0).spec_bytes()
                }
            },
            r is Err ==> {
                let fit = room(old(self)@.len(), old(self).bound());
                &&& final(self).bound() == old(self).bound()
                &&& final(self)@ == old(self)@ + s.spec_bytes().take(fit as int)
                &&& V::rejected(&r->Err_0) == s.spec_bytes()[fit as int]
            },
    {
        broadcast use vstd::utf8::encode_utf8_valid_utf8, vstd::utf8::encode_utf8_decode_utf8;

        let start = self.backing.count();
        let bytes = s.as_bytes();
        let n = bytes.len();
        let mut i: usize = 0;
        while i < n
            invariant
                i <= n,
                n == bytes@.len(),
                bytes@ == s.spec_bytes(),
                start == old(self)@.len(),
                self.bound() == old(self).bound(),
                self@ == old(self)@ + bytes@.take(i as int),
                i > 0 ==> !is_full((start + i - 1) as nat, self.bound()),
            decreases n - i,
        {
            match self.backing.try_push(bytes[i]) {
                Ok(()) => {},
                Err(e) => {
                    proof {
                        assert(bytes@.take(i as int) == bytes@.take(
                            room(old(self)@.len(), old(self).bound()) as int,
                        ));
                    }
                    return Err(e);
                },
            }
            proof {
                assert(bytes@.take(i as int).push(bytes@[i as int]) == bytes@.take(i + 1));
            }
            i = i + 1;
        }
        proof {
            assert(bytes@.take(n as int) == bytes@);
        }
        proof {
            assert(self@.subrange(0, start as int) == old(self)@);
        }
        let tail = self.backing.tail_mut(start);
        proof {
            assert(tail@ == s.spec_bytes());
        }
        let text = text_of_bytes(tail);
        proof {
            assert(vstd::utf8::decode_utf8(text.spec_bytes()) == text@);
            assert(vstd::utf8::decode_utf8(s.spec_bytes()) == s@);
        }
        Ok(text)
    }
}

/// Number of elements that still fit in a store of `len` elements with
/// capacity `bound` (nothing when it is unbounded: the count is then unused).
pub open spec fn room(len: nat, bound: Option<nat>) -> nat {
    match bound {
        Some(cap) => if len >= cap {
            0
        } else {
            (cap - len) as nat
        },
        None => 0,
    }
}

/// Relies on `core::str::from_utf8_mut`: on valid UTF-8 it returns the same
/// bytes as a string slice, and writes through the string reach the bytes.
#[verifier::external_body]
fn text_of_bytes(b: &mut [u8]) -> (r: &mut str)
    requires
        valid_utf8(old(b)@),
    ensures
        r.spec_bytes() == old(b)@,
        final(b)@ == final(r).spec_bytes(),
{
    core::str::from_utf8_mut(b).expect("the bytes are valid UTF-8")
}

impl<T, V: GrowVec<T> + Default> Default for Arena<T, V> {
    /// An arena over the backing store's default value.
    fn default() -> (r: Self)
        ensures
            exists|backing: V|
                call_ensures(V::default, (), backing) && r@ == backing.items() && r.bound()
                    == backing.bound(),
    {
        Self::new(V::default())
    }
}

/// Mutable arena iterator, created by [`Arena::iter_mut`]. Its length is fixed
/// when it is created, and each call to `next` lends the next element.
pub struct IterMut<'a, T, V: GrowVec<T>> {
    idx: usize,
    len: usize,
    backing: &'a mut V,
    marker: PhantomData<T>,
}

impl<'a, T, V: GrowVec<T>> IterMut<'a, T, V> {
    /// Position of the next element to hand out.
    pub closed spec fn index(&self) -> nat {
        self.idx as nat
    }

    /// Number of elements the iterator walks, fixed at creation.
    pub closed spec fn snapshot(&self) -> nat {
        self.len as nat
    }

    /// The arena's elements as they now stand.
    pub closed spec fn items(&self) -> Seq<T> {
        self.backing.items()
    }

    /// The capacity of the arena's backing store.
    pub closed spec fn bound(&self) -> Option<nat> {
        self.backing.bound()
    }

    /// The iterator's invariant: the position never passes the length, which
    /// is the arena's length.
    pub closed spec fn well_formed(&self) -> bool {
        &&& self.idx <= self.len
        &&& self.len == self.backing.items().len()
    }

    /// Lends the next element, or returns `None` once all have been handed out.
    pub fn next(&mut self) -> (r: Option<&mut T>)
        requires
            old(self).well_formed(),
        ensures
            final(self).well_formed(),
            final(self).snapshot() == old(self).snapshot(),
            final(self).bound() == old(self).bound(),
            r is None <==> old(self).index() == old(self).snapshot(),
            r is None ==> final(self).index() == old(self).index() && final(self).items()
                == old(self).items(),
            r is Some ==> {
                &&& *r->Some_0 == old(self).items()[old(self).index() as int]
                &&& final(self).index() == old(self).index() + 1
                &&& final(self).items() == old(self).items().update(
                    old(self).index() as int,
                    *final(r->Some_0),
                )
            },
    {
        if self.idx == self.len {
            None
        } else {
            let i = self.idx;
            self.idx = i + 1;
            Some(self.backing.slot_mut(i))
        }
    }

    /// Lower and upper bound on the number of elements left: both exact.
    pub fn size_hint(&self) -> (r: (usize, Option<usize>))
        requires
            self.well_formed(),
        ensures
            r.0 == self.snapshot() - self.index(),
            r.1 == Some(r.0),
    {
        let remaining = self.len - self.idx;
        (remaining, Some(remaining))
    }

    /// Number of elements left to hand out.
    pub fn len(&self) -> (n: usize)
        requires
            self.well_formed(),
        ensures
            n == self.snapshot() - self.index(),
    {
        self.len - self.idx
    }

    /// Whether every element has been handed out.
    pub fn is_empty(&self) -> (b: bool)
        requires
            self.well_formed(),
        ensures
            b <==> self.index() == self.snapshot(),
    {
        self.len == self.idx
    }
}

} // verus!
