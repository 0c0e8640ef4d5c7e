//! The mathematical model: what each operation does to a sequence of
//! elements and to a capacity.

use crate::raw::next_capacity;
use vstd::prelude::*;

verus! {

/// What taking from the back of `s` yields: its last element, if it has one.
pub open spec fn last_of<T>(s: Seq<T>) -> Option<T> {
    if s.len() == 0 {
        None
    } else {
        Some(s.last())
    }
}

/// What is left of `s` after taking from its back.
pub open spec fn without_last<T>(s: Seq<T>) -> Seq<T> {
    if s.len() == 0 {
        s
    } else {
        s.drop_last()
    }
}

/// What taking from the front of `s` yields: its first element, if it has one.
pub open spec fn first_of<T>(s: Seq<T>) -> Option<T> {
    if s.len() == 0 {
        None
    } else {
        Some(s.first())
    }
}

/// What is left of `s` after taking from its front.
pub open spec fn without_first<T>(s: Seq<T>) -> Seq<T> {
    if s.len() == 0 {
        s
    } else {
        s.drop_first()
    }
}

/// Capacity after one more element joins `len` elements held in `cap` slots:
/// storage grows only when every slot is taken.
pub open spec fn capacity_after_push(len: nat, cap: nat) -> nat {
    if len == cap {
        next_capacity(cap)
    } else {
        cap
    }
}

/// The sequence that `s` becomes when each element of `xs` is pushed in turn.
pub open spec fn after_pushes<T>(s: Seq<T>, xs: Seq<T>) -> Seq<T>
    decreases xs.len(),
{
    if xs.len() == 0 {
        s
    } else {
        after_pushes(s.push(xs.first()), xs.drop_first())
    }
}

/// What `n` takes from the back of `s`, one after the other, yield.
pub open spec fn pops<T>(s: Seq<T>, n: nat) -> Seq<Option<T>>
    decreases n,
{
    if n == 0 {
        Seq::empty()
    } else {
        seq![last_of(s)] + pops(without_last(s), (n - 1) as nat)
    }
}

/// Capacity of an array that started empty, without storage, and had `k`
/// elements pushed and none taken out.
pub open spec fn capacity_after_pushes(k: nat) -> nat
    decreases k,
{
    if k == 0 {
        0
    } else {
        capacity_after_push((k - 1) as nat, capacity_after_pushes((k - 1) as nat))
    }
}

/// What a run of takes from either end of `s` yields. Take `i` is from the
/// back where `from_back[i]` holds, and from the front where it does not.
pub open spec fn takes<T>(s: Seq<T>, from_back: Seq<bool>) -> Seq<Option<T>>
    decreases from_back.len(),
{
    if from_back.len() == 0 {
        Seq::empty()
    } else if from_back.first() {
        seq![last_of(s)] + takes(without_last(s), from_back.drop_first())
    } else {
        seq![first_of(s)] + takes(without_first(s), from_back.drop_first())
    }
}

/// Number of takes from the back among the first `i` takes of a run.
pub open spec fn backs_before(from_back: Seq<bool>, i: int) -> int
    decreases i,
{
    if i <= 0 || i > from_back.len() {
        0
    } else {
        backs_before(from_back, i - 1) + if from_back[i - 1] {
            1int
        } else {
            0int
        }
    }
}

/// Index, in a sequence of `n` elements, of the element that take `i` of a
/// run yields: a take from the front yields the element after those that
/// earlier takes from the front yielded, and a take from the back the one
/// before those that earlier takes from the back yielded.
pub open spec fn source_index(n: nat, from_back: Seq<bool>, i: int) -> int {
    if from_back[i] {
        n - 1 - backs_before(from_back, i)
    } else {
        i - backs_before(from_back, i)
    }
}

} // verus!
