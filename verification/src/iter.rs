//! Iterators that hand the elements of an array out by value, from either
//! end.

use crate::fbvec::FbVec;
use crate::model::{first_of, last_of, without_first, without_last};
use core::marker::PhantomData;
use vstd::prelude::*;

verus! {

/// A range of slots that still hold an element, narrowed from either end.
///
/// The slots from `start` up to `end` hold one element each; every other
/// slot is empty. Its view is the sequence of the elements not yet handed
/// out, in index order.
pub struct RawValIter<T> {
    slots: Vec<Option<T>>,
    start: usize,
    end: usize,
}

impl<T> View for RawValIter<T> {
    type V = Seq<T>;

    closed spec fn view(&self) -> Seq<T> {
        Seq::new((self.end - self.start) as nat, |i: int| self.slots@[self.start + i].unwrap())
    }
}

impl<T> RawValIter<T> {
    /// Validity: the range lies within the slots, and exactly the slots in
    /// it hold an element.
    pub closed spec fn wf(&self) -> bool {
        &&& self.start <= self.end <= self.slots@.len()
        &&& forall|i: int|
            0 <= i < self.slots@.len() ==> ((#[trigger] self.slots@[i]) is Some <==> self.start
                <= i < self.end)
    }

    /// Number of slots that the iterator holds on to.
    pub closed spec fn capacity(&self) -> nat {
        self.slots@.len()
    }

    /// An iterator over the first `len` slots, which are the ones that hold
    /// an element.
    pub(crate) fn new(slots: Vec<Option<T>>, len: usize) -> (iter: Self)
        requires
            len <= slots@.len(),
            forall|i: int| 0 <= i < slots@.len() ==> ((#[trigger] slots@[i]) is Some <==> i < len),
        ensures
            iter.wf(),
            iter@ == Seq::new(len as nat, |i: int| slots@[i].unwrap()),
            iter.capacity() == slots@.len(),
    {
        RawValIter { slots, start: 0, end: len }
    }

    /// Hands out the earliest element left, if any is left.
    pub fn next(&mut self) -> (elem: Option<T>)
        requires
            old(self).wf(),
        ensures
            final(self).wf(),
            elem == first_of(old(self)@),
            final(self)@ == without_first(old(self)@),
            final(self).capacity() == old(self).capacity(),
    {
        if self.start == self.end {
            None
        } else {
            let elem = self.slots[self.start].take();
            self.start += 1;
            elem
        }
    }

    /// Number of elements left, as a lower and an upper bound. Both are exact.
    pub fn size_hint(&self) -> (hint: (usize, Option<usize>))
        requires
            self.wf(),
        ensures
            hint.0 == self@.len(),
            hint.1 == Some(hint.0),
    {
        let len: usize = self.end - self.start;
        (len, Some(len))
    }

    /// Hands out the latest element left, if any is left.
    pub fn next_back(&mut self) -> (elem: Option<T>)
        requires
            old(self).wf(),
        ensures
            final(self).wf(),
            elem == last_of(old(self)@),
            final(self)@ == without_last(old(self)@),
            final(self).capacity() == old(self).capacity(),
    {
        if self.start == self.end {
            None
        } else {
            self.end -= 1;
            self.slots[self.end].take()
        }
    }
}

/// The elements of an array that was given up for them, by value.
///
/// The iterator owns the array's storage and whatever it has not handed
/// out. Its view is the sequence of the elements left, in index order.
pub struct IntoIter<T> {
    iter: RawValIter<T>,
}

impl<T> View for IntoIter<T> {
    type V = Seq<T>;

    closed spec fn view(&self) -> Seq<T> {
        self.iter@
    }
}

impl<T> IntoIter<T> {
    /// Validity of the range that is left.
    pub closed spec fn wf(&self) -> bool {
        self.iter.wf()
    }

    /// Number of slots of the storage that came with the array.
    pub closed spec fn capacity(&self) -> nat {
        self.iter.capacity()
    }

    pub(crate) fn new(iter: RawValIter<T>) -> (into_iter: Self)
        requires
            iter.wf(),
        ensures
            into_iter.wf(),
            into_iter@ == iter@,
            into_iter.capacity() == iter.capacity(),
    {
        IntoIter { iter }
    }

    /// Hands out the earliest element left, if any is left.
    pub fn next(&mut self) -> (elem: Option<T>)
        requires
            old(self).wf(),
        ensures
            final(self).wf(),
            elem == first_of(old(self)@),
            final(self)@ == without_first(old(self)@),
            final(self).capacity() == old(self).capacity(),
    {
        self.iter.next()
    }

    /// Number of elements left, as a lower and an upper bound. Both are exact.
    pub fn size_hint(&self) -> (hint: (usize, Option<usize>))
        requires
            self.wf(),
        ensures
            hint.0 == self@.len(),
            hint.1 == Some(hint.0),
    {
        self.iter.size_hint()
    }

    /// Hands out the latest element left, if any is left.
    pub fn next_back(&mut self) -> (elem: Option<T>)
        requires
            old(self).wf(),
        ensures
            final(self).wf(),
            elem == last_of(old(self)@),
            final(self)@ == without_last(old(self)@),
            final(self).capacity() == old(self).capacity(),
    {
        self.iter.next_back()
    }
}

/// The elements that an array held when it was drained, by value.
///
/// The array is empty from the moment the drain exists and keeps its
/// storage; it stays borrowed for as long as the drain lives. The drain owns
/// whatever it has not handed out. Its view is the sequence of the elements
/// left, in index order.
pub struct Drain<'a, T: 'a> {
    vec: PhantomData<&'a mut FbVec<T>>,
    iter: RawValIter<T>,
}

impl<'a, T: 'a> View for Drain<'a, T> {
    type V = Seq<T>;

    closed spec fn view(&self) -> Seq<T> {
        self.iter@
    }
}

impl<'a, T: 'a> Drain<'a, T> {
    /// Validity of the range that is left.
    pub closed spec fn wf(&self) -> bool {
        self.iter.wf()
    }

    pub(crate) fn new(iter: RawValIter<T>) -> (drain: Self)
        requires
            iter.wf(),
        ensures
            drain.wf(),
            drain@ == iter@,
    {
        Drain { vec: PhantomData, iter }
    }

    /// Hands out the earliest element left, if any is left.
    pub fn next(&mut self) -> (elem: Option<T>)
        requires
            old(self).wf(),
        ensures
            final(self).wf(),
            elem == first_of(old(self)@),
            final(self)@ == without_first(old(self)@),
    {
        self.iter.next()
    }

    /// Number of elements left, as a lower and an upper bound. Both are exact.
    pub fn size_hint(&self) -> (hint: (usize, Option<usize>))
        requires
            self.wf(),
        ensures
            hint.0 == self@.len(),
            hint.1 == Some(hint.0),
    {
        self.iter.size_hint()
    }

    /// Hands out the latest element left, if any is left.
    pub fn next_back(&mut self) -> (elem: Option<T>)
        requires
            old(self).wf(),
        ensures
            final(self).wf(),
            elem == last_of(old(self)@),
            final(self)@ == without_last(old(self)@),
    {
        self.iter.next_back()
    }
}

} // verus!
