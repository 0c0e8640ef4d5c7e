//! The growable array.

use crate::iter::{Drain, IntoIter, RawValIter};
use crate::model::{capacity_after_push, last_of, without_last};
use crate::raw::{fits, lemma_fits_bound, next_capacity, RawFbVec};
use vstd::layout::size_of;
use vstd::prelude::*;

verus! {

/// A growable array: `len` live elements at the start of a buffer of slots.
///
/// Its view is the sequence of the live elements, in index order.
pub struct FbVec<T> {
    buf: RawFbVec<T>,
    len: usize,
}

impl<T> View for FbVec<T> {
    type V = Seq<T>;

    closed spec fn view(&self) -> Seq<T> {
        Seq::new(self.len as nat, |i: int| self.buf.slots@[i].unwrap())
    }
}

impl<T> FbVec<T> {
    /// Number of slots that the storage has.
    pub closed spec fn capacity(&self) -> nat {
        self.buf.capacity()
    }

    /// The first `len` slots hold an element each, and the others none.
    pub closed spec fn slots_wf(&self) -> bool {
        &&& self.len <= self.buf.slots@.len()
        &&& forall|i: int| 0 <= i < self.len ==> (#[trigger] self.buf.slots@[i]) is Some
        &&& forall|i: int|
            self.len <= i < self.buf.slots@.len() ==> (#[trigger] self.buf.slots@[i]) is None
    }

    /// Validity: the live elements are within the storage, the storage fits
    /// in one allocation, and the element type has a size.
    pub open spec fn wf(&self) -> bool {
        &&& self.slots_wf()
        &&& self@.len() <= self.capacity()
        &&& size_of::<T>() != 0
        &&& fits::<T>(self.capacity())
    }

    /// Whether one more element can join: a slot is free, or the storage
    /// can grow.
    pub open spec fn admits_one_more(&self) -> bool {
        self@.len() < self.capacity() || fits::<T>(next_capacity(self.capacity()))
    }

    /// Number of slots that the storage has.
    pub fn cap(&self) -> (cap: usize)
        ensures
            cap == self.capacity(),
    {
        self.buf.cap()
    }

    /// Number of live elements.
    pub fn len(&self) -> (len: usize)
        ensures
            len == self@.len(),
    {
        self.len
    }

    /// An empty array. Nothing is allocated.
    pub fn new() -> (v: Self)
        requires
            size_of::<T>() != 0,
        ensures
            v.wf(),
            v@ == Seq::<T>::empty(),
            v.capacity() == 0,
    {
        FbVec { buf: RawFbVec::new(), len: 0 }
    }

    /// Whether `push` and `insert` can take one more element.
    pub fn can_push(&self) -> (ok: bool)
        requires
            self.wf(),
        ensures
            ok == self.admits_one_more(),
    {
        self.len < self.cap() || self.buf.can_grow()
    }

    /// Appends `elem`. Storage grows first when every slot is taken.
    pub fn push(&mut self, elem: T)
        requires
            old(self).wf(),
            old(self).admits_one_more(),
        ensures
            final(self).wf(),
            final(self)@ == old(self)@.push(elem),
            final(self).capacity() == capacity_after_push(old(self)@.len(), old(self).capacity()),
    {
        if self.len == self.cap() {
            self.buf.grow();
        }
        proof {
            lemma_fits_bound::<T>(self.capacity());
        }
        self.buf.slots[self.len] = Some(elem);
        self.len += 1;
    }

    /// Takes the last element out, if there is one. No slot is given back.
    pub fn pop(&mut self) -> (elem: Option<T>)
        requires
            old(self).wf(),
        ensures
            final(self).wf(),
            elem == last_of(old(self)@),
            final(self)@ == without_last(old(self)@),
            final(self).capacity() == old(self).capacity(),
    {
        if self.len == 0 {
            None
        } else {
            self.len -= 1;
            self.buf.slots[self.len].take()
        }
    }

    /// Puts `elem` at `index`. The elements from `index` on move one slot up,
    /// in their order; storage grows first when every slot is taken.
    pub fn insert(&mut self, index: usize, elem: T)
        requires
            old(self).wf(),
            index <= old(self)@.len(),
            old(self).admits_one_more(),
        ensures
            final(self).wf(),
            final(self)@ == old(self)@.insert(index as int, elem),
            final(self)@.len() == old(self)@.len() + 1,
            final(self)@[index as int] == elem,
            forall|i: int| 0 <= i < index ==> final(self)@[i] == old(self)@[i],
            forall|i: int| index <= i < old(self)@.len() ==> final(self)@[i + 1] == old(self)@[i],
            final(self).capacity() == capacity_after_push(old(self)@.len(), old(self).capacity()),
    {
        if self.len == self.cap() {
            self.buf.grow();
        }
        proof {
            lemma_fits_bound::<T>(self.capacity());
        }
        let ghost before = self.buf.slots@;
        let mut at: usize = self.len;
        while at > index
            invariant
                index <= at <= self.len < before.len(),
                self.len == old(self).len,
                old(self).wf(),
                fits::<T>(before.len()),
                before.len() == capacity_after_push(old(self)@.len(), old(self).capacity()),
                forall|i: int|
                    0 <= i < self.len ==> (#[trigger] before[i]) == old(self).buf.slots@[i],
                forall|i: int| self.len <= i < before.len() ==> (#[trigger] before[i]) is None,
                self.buf.slots@.len() == before.len(),
                forall|i: int| 0 <= i < at ==> (#[trigger] self.buf.slots@[i]) == before[i],
                self.buf.slots@[at as int] is None,
                forall|i: int|
                    at < i <= self.len ==> (#[trigger] self.buf.slots@[i]) == before[i - 1],
                forall|i: int|
                    self.len < i < before.len() ==> (#[trigger] self.buf.slots@[i]) == before[i],
            decreases at,
        {
            let moved = self.buf.slots[at - 1].take();
            self.buf.slots[at] = moved;
            at -= 1;
        }
        self.buf.slots[index] = Some(elem);
        self.len += 1;
    }

    /// Takes the element at `index` out. The elements after it move one slot
    /// down, in their order. No slot is given back.
    pub fn remove(&mut self, index: usize) -> (elem: T)
        requires
            old(self).wf(),
            index < old(self)@.len(),
        ensures
            final(self).wf(),
            elem == old(self)@[index as int],
            final(self)@ == old(self)@.remove(index as int),
            final(self)@.len() == old(self)@.len() - 1,
            forall|i: int| 0 <= i < index ==> final(self)@[i] == old(self)@[i],
            forall|i: int| index < i < old(self)@.len() ==> final(self)@[i - 1] == old(self)@[i],
            final(self).capacity() == old(self).capacity(),
    {
        let ghost before = self.buf.slots@;
        self.len -= 1;
        let elem = self.buf.slots[index].take();
        let mut at: usize = index;
        while at < self.len
            invariant
                index <= at <= self.len < before.len(),
                self.len + 1 == old(self).len,
                old(self).wf(),
                before == old(self).buf.slots@,
                self.buf.slots@.len() == before.len(),
                forall|i: int| 0 <= i < index ==> (#[trigger] self.buf.slots@[i]) == before[i],
                forall|i: int|
                    index <= i < at ==> (#[trigger] self.buf.slots@[i]) == before[i + 1],
                self.buf.slots@[at as int] is None,
                forall|i: int|
                    at < i < before.len() ==> (#[trigger] self.buf.slots@[i]) == before[i],
            decreases self.len - at,
        {
            let moved = self.buf.slots[at + 1].take();
            self.buf.slots[at] = moved;
            at += 1;
        }
        elem.unwrap()
    }

    /// The element at `index`.
    pub fn index(&self, index: usize) -> (elem: &T)
        requires
            self.wf(),
            index < self@.len(),
        ensures
            *elem == self@[index as int],
    {
        self.buf.slots[index].as_ref().unwrap()
    }

    /// The element at `index`, to read or to write. Whatever is written
    /// there stands at `index` afterwards, and nothing else changes.
    pub fn index_mut(&mut self, index: usize) -> (elem: &mut T)
        requires
            old(self).wf(),
            index < old(self)@.len(),
        ensures
            *elem == old(self)@[index as int],
            final(self).wf(),
            final(self)@ == old(self)@.update(index as int, *final(elem)),
            final(self).capacity() == old(self).capacity(),
    {
        self.buf.slots[index].as_mut().unwrap()
    }

    /// Empties the array and hands its elements to a drain, which yields
    /// them by value. The storage stays with the array.
    pub fn drain(&mut self) -> (drain: Drain<'_, T>)
        requires
            old(self).wf(),
        ensures
            final(self).wf(),
            final(self)@ == Seq::<T>::empty(),
            final(self).capacity() == old(self).capacity(),
            drain.wf(),
            drain@ == old(self)@,
    {
        let mut taken: Vec<Option<T>> = Vec::new();
        taken.reserve(self.len);
        let mut at: usize = 0;
        while at < self.len
            invariant
                at <= self.len,
                self.len == old(self).len,
                old(self).wf(),
                self.buf.slots@.len() == old(self).buf.slots@.len(),
                taken@.len() == at,
                forall|i: int| 0 <= i < at ==> (#[trigger] taken@[i]) == old(self).buf.slots@[i],
                forall|i: int| 0 <= i < at ==> (#[trigger] self.buf.slots@[i]) is None,
                forall|i: int|
                    at <= i < self.buf.slots@.len() ==> (#[trigger] self.buf.slots@[i]) == old(
                        self,
                    ).buf.slots@[i],
            decreases self.len - at,
        {
            let moved = self.buf.slots[at].take();
            taken.push(moved);
            at += 1;
        }
        let iter = RawValIter::new(taken, self.len);
        self.len = 0;
        Drain::new(iter)
    }

    /// Gives the array up for an iterator that yields its elements by value.
    /// The storage goes with them.
    pub fn into_iter(self) -> (iter: IntoIter<T>)
        requires
            self.wf(),
        ensures
            iter.wf(),
            iter@ == self@,
            iter.capacity() == self.capacity(),
    {
        let FbVec { buf, len } = self;
        let iter = RawValIter::new(buf.slots, len);
        IntoIter::new(iter)
    }
}

} // verus!
