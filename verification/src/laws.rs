//! What holds of runs of operations, proved over the model that the
//! operations' contracts are stated in.

use crate::model::{
    after_pushes, backs_before, capacity_after_push, capacity_after_pushes, pops, source_index,
    takes, without_first, without_last,
};
use vstd::arithmetic::power2::{lemma_pow2_strictly_increases, lemma_pow2_unfold, pow2};
use vstd::prelude::*;

verus! {

/// Pushing the elements of `xs` in turn appends `xs`.
pub proof fn lemma_after_pushes<T>(s: Seq<T>, xs: Seq<T>)
    ensures
        after_pushes(s, xs) == s + xs,
    decreases xs.len(),
{
    if xs.len() > 0 {
        lemma_after_pushes(s.push(xs.first()), xs.drop_first());
    }
}

/// Take `i` from the back yields the element `i` places before the end, and
/// nothing once the sequence is used up.
pub proof fn lemma_pops<T>(s: Seq<T>, n: nat)
    ensures
        pops(s, n).len() == n,
        forall|i: int|
            0 <= i < n ==> (#[trigger] pops(s, n)[i]) == if i < s.len() {
                Some(s[s.len() - 1 - i])
            } else {
                None
            },
    decreases n,
{
    if n > 0 {
        lemma_pops(without_last(s), (n - 1) as nat);
    }
}

/// After any run of pushes onto an empty array, as many pops return the
/// pushed elements in reverse order, and one pop more returns nothing.
pub proof fn lemma_pops_reverse_pushes<T>(xs: Seq<T>)
    ensures
        pops(after_pushes(Seq::empty(), xs), xs.len() + 1) == xs.reverse().map_values(
            |x: T| Some(x),
        ).push(None),
{
    let pushed = after_pushes(Seq::<T>::empty(), xs);
    lemma_after_pushes(Seq::<T>::empty(), xs);
    lemma_pops(pushed, xs.len() + 1);
}

/// Removing at the index of an insertion gives the inserted element back and
/// leaves the sequence as it was before the insertion.
pub proof fn lemma_remove_undoes_insert<T>(s: Seq<T>, index: int, elem: T)
    requires
        0 <= index <= s.len(),
    ensures
        s.insert(index, elem)[index] == elem,
        s.insert(index, elem).remove(index) == s,
{
}

/// Inserting the removed element at the index of its removal leaves the
/// sequence as it was before the removal.
pub proof fn lemma_insert_undoes_remove<T>(s: Seq<T>, index: int)
    requires
        0 <= index < s.len(),
    ensures
        s.remove(index).insert(index, s[index]) == s,
{
}

/// The capacity after `k` pushes is a power of two with an exponent `e` such
/// that `k` lies above the power before it, where there is one.
proof fn lemma_capacity_exponent(k: nat) -> (e: nat)
    requires
        k >= 1,
    ensures
        capacity_after_pushes(k) == pow2(e),
        k <= pow2(e),
        e > 0 ==> pow2((e - 1) as nat) < k,
    decreases k,
{
    if k == 1 {
        assert(capacity_after_pushes(0) == 0);
        assert(pow2(0) == 1) by {
            vstd::arithmetic::power2::lemma2_to64();
        }
        0
    } else {
        let before = lemma_capacity_exponent((k - 1) as nat);
        let cap = capacity_after_pushes((k - 1) as nat);
        if k - 1 == cap {
            lemma_pow2_unfold(before + 1);
            before + 1
        } else {
            before
        }
    }
}

/// Starting from an empty array without storage, after `k` pushes and
/// nothing taken out, the capacity is the least power of two that is no less
/// than `k`.
pub proof fn lemma_capacity_after_pushes(k: nat)
    requires
        k >= 1,
    ensures
        exists|e: nat| capacity_after_pushes(k) == pow2(e),
        capacity_after_pushes(k) >= k,
        forall|e: nat| pow2(e) >= k ==> capacity_after_pushes(k) <= #[trigger] pow2(e),
{
    let exponent = lemma_capacity_exponent(k);
    assert forall|e: nat| pow2(e) >= k implies capacity_after_pushes(k) <= #[trigger] pow2(
        e,
    ) by {
        if e < exponent {
            if e < exponent - 1 {
                lemma_pow2_strictly_increases(e, (exponent - 1) as nat);
            }
        } else if e > exponent {
            lemma_pow2_strictly_increases(exponent, e);
        }
    }
}

/// A push never lowers the capacity.
pub proof fn lemma_capacity_never_shrinks(len: nat, cap: nat)
    ensures
        capacity_after_push(len, cap) >= cap,
{
}

/// The takes from the back among the first `i` are at most `i`, and none is
/// lost when the run goes on.
pub proof fn lemma_backs_before(from_back: Seq<bool>, i: int, j: int)
    requires
        0 <= i <= j <= from_back.len(),
    ensures
        0 <= backs_before(from_back, i) <= backs_before(from_back, j),
        backs_before(from_back, j) - backs_before(from_back, i) <= j - i,
        i < j && from_back[i] ==> backs_before(from_back, i) < backs_before(from_back, j),
        i < j && !from_back[i] ==> backs_before(from_back, j) - backs_before(from_back, i) < j
            - i,
    decreases j,
{
    if i < j {
        lemma_backs_before(from_back, i, j - 1);
    } else if i > 0 {
        lemma_backs_before(from_back, 0, i - 1);
    }
}

/// A run that starts one take later counts one take from the back fewer
/// where the first take was from the back.
proof fn lemma_backs_before_tail(from_back: Seq<bool>, i: int)
    requires
        0 <= i < from_back.len(),
    ensures
        backs_before(from_back, i + 1) == backs_before(from_back.drop_first(), i) + if from_back[0] {
            1int
        } else {
            0int
        },
    decreases i,
{
    if i > 0 {
        lemma_backs_before_tail(from_back, i - 1);
    } else {
        assert(backs_before(from_back, 0) == 0);
    }
}

/// Whatever the order of takes from the front and from the back, each take
/// yields the element at its source index while elements are left, and
/// nothing afterwards.
pub proof fn lemma_takes<T>(s: Seq<T>, from_back: Seq<bool>)
    ensures
        takes(s, from_back).len() == from_back.len(),
        forall|i: int|
            0 <= i < from_back.len() ==> (#[trigger] takes(s, from_back)[i]) == if i < s.len() {
                Some(s[source_index(s.len(), from_back, i)])
            } else {
                None
            },
    decreases from_back.len(),
{
    if from_back.len() > 0 {
        let tail = from_back.drop_first();
        let rest = if from_back.first() {
            without_last(s)
        } else {
            without_first(s)
        };
        lemma_takes(rest, tail);
        assert forall|i: int| 0 <= i < from_back.len() implies (#[trigger] takes(
            s,
            from_back,
        )[i]) == if i < s.len() {
            Some(s[source_index(s.len(), from_back, i)])
        } else {
            None
        } by {
            if i > 0 {
                lemma_backs_before_tail(from_back, i - 1);
                lemma_backs_before(tail, 0, i - 1);
                lemma_backs_before(tail, i - 1, i - 1);
            }
        }
    }
}

/// In a run of as many takes as there are elements, every take has a source
/// index within the sequence and no two takes share one: each element is
/// yielded exactly once.
pub proof fn lemma_takes_each_once(n: nat, from_back: Seq<bool>)
    requires
        from_back.len() == n,
    ensures
        forall|i: int| 0 <= i < n ==> 0 <= #[trigger] source_index(n, from_back, i) < n,
        forall|i: int, j: int|
            0 <= i < j < n ==> #[trigger] source_index(n, from_back, i) != #[trigger] source_index(
                n,
                from_back,
                j,
            ),
{
    assert forall|i: int| 0 <= i < n implies 0 <= #[trigger] source_index(n, from_back, i)
        < n by {
        lemma_backs_before(from_back, 0, i);
    }
    assert forall|i: int, j: int| 0 <= i < j < n implies #[trigger] source_index(
        n,
        from_back,
        i,
    ) != #[trigger] source_index(n, from_back, j) by {
        lemma_backs_before(from_back, i, j);
        lemma_backs_before(from_back, 0, i);
    }
}

} // verus!
