//! Slot storage: the buffer that a growable array keeps its elements in.

use vstd::layout::size_of;
use vstd::prelude::*;

verus! {

/// Factor by which a buffer that already holds slots grows.
pub const GROWTH_RATE: usize = 2;

/// Capacity that a buffer of capacity `cap` has after growing once.
pub open spec fn next_capacity(cap: nat) -> nat {
    if cap == 0 {
        1
    } else {
        GROWTH_RATE as nat * cap
    }
}

/// Whether `cap` slots of `T` take no more bytes than one allocation may have.
pub open spec fn fits<T>(cap: nat) -> bool {
    cap * size_of::<T>() <= isize::MAX
}

/// Storage of `cap` slots, each empty or holding one element.
///
/// The buffer knows nothing of which slots are live: that is the business
/// of whoever owns it.
pub struct RawFbVec<T> {
    pub(crate) slots: Vec<Option<T>>,
}

impl<T> RawFbVec<T> {
    /// The slots, in address order.
    pub open(crate) spec fn slots(&self) -> Seq<Option<T>> {
        self.slots@
    }

    /// Number of slots.
    pub open spec fn capacity(&self) -> nat {
        self.slots().len()
    }

    /// The element type has a size, and the slots fit in one allocation.
    pub open spec fn wf(&self) -> bool {
        &&& size_of::<T>() != 0
        &&& fits::<T>(self.capacity())
    }

    /// A buffer without slots. Nothing is allocated.
    pub fn new() -> (buf: Self)
        requires
            size_of::<T>() != 0,
        ensures
            buf.wf(),
            buf.slots() == Seq::<Option<T>>::empty(),
    {
        let buf = RawFbVec { slots: Vec::new() };
        assert(buf.capacity() * size_of::<T>() == 0) by (nonlinear_arith)
            requires
                buf.capacity() == 0,
        ;
        buf
    }

    /// Number of slots.
    pub fn cap(&self) -> (cap: usize)
        ensures
            cap == self.capacity(),
    {
        self.slots.len()
    }

    /// Whether the buffer can grow once more: whether the slots that it
    /// would have then fit in one allocation.
    pub fn can_grow(&self) -> (ok: bool)
        requires
            self.wf(),
        ensures
            ok == fits::<T>(next_capacity(self.capacity())),
    {
        let cap: usize = self.slots.len();
        proof {
            lemma_fits_bound::<T>(cap as nat);
        }
        let new_cap: usize = if cap == 0 {
            1
        } else {
            GROWTH_RATE * cap
        };
        match new_cap.checked_mul(core::mem::size_of::<T>()) {
            Some(bytes) => bytes <= isize::MAX as usize,
            None => false,
        }
    }

    /// Grows from no slot to one, and from then on to `GROWTH_RATE` times as
    /// many. The slots that were there keep what they hold; the new ones are
    /// empty.
    pub fn grow(&mut self)
        requires
            old(self).wf(),
            fits::<T>(next_capacity(old(self).capacity())),
        ensures
            final(self).wf(),
            final(self).capacity() == next_capacity(old(self).capacity()),
            final(self).slots() == old(self).slots() + Seq::new(
                (next_capacity(old(self).capacity()) - old(self).capacity()) as nat,
                |i: int| None::<T>,
            ),
    {
        let cap: usize = self.slots.len();
        proof {
            lemma_fits_bound::<T>(next_capacity(cap as nat));
        }
        let new_cap: usize = if cap == 0 {
            1
        } else {
            GROWTH_RATE * cap
        };
        self.slots.reserve(new_cap - cap);
        while self.slots.len() < new_cap
            invariant
                cap <= self.slots@.len() <= new_cap,
                self.slots@ == old(self).slots@ + Seq::new(
                    (self.slots@.len() - cap) as nat,
                    |i: int| None::<T>,
                ),
            decreases new_cap - self.slots@.len(),
        {
            self.slots.push(None);
        }
    }
}

/// A number of slots that fits, of a type with a size, is at most `isize::MAX`.
pub proof fn lemma_fits_bound<T>(cap: nat)
    requires
        size_of::<T>() != 0,
        fits::<T>(cap),
    ensures
        cap <= isize::MAX,
{
    let size = size_of::<T>();
    assert(cap <= cap * size) by (nonlinear_arith)
        requires
            size >= 1,
    ;
}

} // verus!
