//! What holds of the heap across several operations: parents outrank children, the
//! order in which items leave the heap, which child wins a tie, and that a lone item
//! comes back as it went in.

use vstd::prelude::*;
use vstd::seq_lib::group_to_multiset_ensures;
use crate::index::{heapified_index, indexed};
use crate::item::{HeapItem, Id};
use crate::order::{
    descending, heap_ordered, heapified, larger_child, left_of, ordered_at, popped, pushed,
    right_of, sift_down_seq, sinks, swapped,
};
use crate::order_lemmas::{
    lemma_heapified, lemma_popped, lemma_pushed, lemma_sift_down_permutes,
};

verus! {

/// In a heap no child outranks its parent, read from the parent's side.
pub proof fn lemma_children_below<T: HeapItem>(s: Seq<T>, i: int)
    requires
        heap_ordered(s),
        0 <= i,
    ensures
        left_of(i) < s.len() ==> s[left_of(i)].spec_key() <= s[i].spec_key(),
        right_of(i) < s.len() ==> s[right_of(i)].spec_key() <= s[i].spec_key(),
{
    if left_of(i) < s.len() {
        assert(ordered_at(s, left_of(i)));
    }
    if right_of(i) < s.len() {
        assert(ordered_at(s, right_of(i)));
    }
}

/// The items of a heap in the order in which popping until it is empty returns them.
pub open spec fn drained<T: HeapItem>(s: Seq<T>) -> Seq<T>
    decreases s.len(),
    via drained_decreases::<T>
{
    if s.len() == 0 {
        Seq::empty()
    } else {
        seq![s[0]] + drained(popped(s))
    }
}

#[via_fn]
proof fn drained_decreases<T: HeapItem>(s: Seq<T>) {
    if s.len() != 0 {
        lemma_sift_down_permutes(s.update(0, s.last()).drop_last(), 0);
    }
}

/// Popping a heap until it is empty returns every item once, keys in non-increasing
/// order.
pub proof fn lemma_drained_descending<T: HeapItem>(s: Seq<T>)
    requires
        heap_ordered(s),
    ensures
        drained(s).len() == s.len(),
        drained(s).to_multiset() == s.to_multiset(),
        descending(drained(s)),
    decreases s.len(),
{
    broadcast use group_to_multiset_ensures;

    if s.len() > 0 {
        let rest = drained(popped(s));
        lemma_popped(s);
        lemma_drained_descending(popped(s));
        assert(drained(s) =~= rest.insert(0, s[0]));
        let d = drained(s);
        assert forall|i: int, j: int| 0 <= i <= j < d.len() implies
            (#[trigger] d[j]).spec_key() <= (#[trigger] d[i]).spec_key() by {
            if i == 0 && j > 0 {
                let x = rest[j - 1];
                assert(rest.to_multiset().count(x) > 0);
                assert(popped(s).contains(x));
            } else if i > 0 {
                assert(rest[j - 1].spec_key() <= rest[i - 1].spec_key());
            }
        }
    }
}

/// The heap after the first `n` of `items` were pushed onto an empty heap, one by one.
pub open spec fn pushed_all<T: HeapItem>(items: Seq<T>, n: int) -> Seq<T>
    decreases n,
{
    if n <= 0 {
        Seq::empty()
    } else {
        pushed(pushed_all(items, n - 1), items[n - 1])
    }
}

/// Pushing items one by one onto an empty heap gives a heap of just these items.
pub proof fn lemma_pushed_all<T: HeapItem>(items: Seq<T>, n: int)
    requires
        0 <= n <= items.len(),
    ensures
        heap_ordered(pushed_all(items, n)),
        pushed_all(items, n).len() == n,
        pushed_all(items, n).to_multiset() == items.take(n).to_multiset(),
    decreases n,
{
    broadcast use group_to_multiset_ensures;

    if n > 0 {
        lemma_pushed_all(items, n - 1);
        lemma_pushed(pushed_all(items, n - 1), items[n - 1]);
        assert(items.take(n) =~= items.take(n - 1).push(items[n - 1]));
    }
}

/// Heap sort by pushing: push any items one by one, then pop until the heap is empty;
/// the items come back, each once, keys in non-increasing order.
pub proof fn lemma_push_all_then_drain<T: HeapItem>(items: Seq<T>)
    ensures
        descending(drained(pushed_all(items, items.len() as int))),
        drained(pushed_all(items, items.len() as int)).to_multiset() == items.to_multiset(),
{
    lemma_pushed_all(items, items.len() as int);
    lemma_drained_descending(pushed_all(items, items.len() as int));
    assert(items.take(items.len() as int) =~= items);
}

/// Heap sort by building: build a heap from any items, then pop until it is empty; the
/// items come back, each once, keys in non-increasing order.
pub proof fn lemma_heapify_then_drain<T: HeapItem>(items: Seq<T>)
    ensures
        descending(drained(heapified(items))),
        drained(heapified(items)).to_multiset() == items.to_multiset(),
{
    lemma_heapified(items);
    lemma_drained_descending(heapified(items));
}

/// Sinking leaves the positions before the sinking item alone.
pub proof fn lemma_sift_down_keeps_prefix<T: HeapItem>(s: Seq<T>, j: int, i: int)
    requires
        0 <= i < j,
        i < s.len(),
    ensures
        sift_down_seq(s, j)[i] == s[i],
    decreases s.len() - j,
{
    if sinks(s, j) {
        let m = larger_child(s, j);
        lemma_sift_down_keeps_prefix(swapped(s, j, m), m, i);
    }
}

/// Where both children of an item have the same key, a sinking item is measured
/// against the right child. If that key outranks the item, the two change places: the
/// right child comes to stand where the item stood, and the left child stays. If it
/// does not, nothing moves.
pub proof fn lemma_tie_goes_right<T: HeapItem>(s: Seq<T>, j: int)
    requires
        0 <= j,
        right_of(j) < s.len(),
        s[left_of(j)].spec_key() == s[right_of(j)].spec_key(),
    ensures
        larger_child(s, j) == right_of(j),
        s[j].spec_key() < s[right_of(j)].spec_key() ==> {
            &&& sift_down_seq(s, j) == sift_down_seq(swapped(s, j, right_of(j)), right_of(j))
            &&& sift_down_seq(s, j)[j] == s[right_of(j)]
            &&& sift_down_seq(s, j)[left_of(j)] == s[left_of(j)]
        },
        s[j].spec_key() >= s[right_of(j)].spec_key() ==> sift_down_seq(s, j) == s,
{
    if s[j].spec_key() < s[right_of(j)].spec_key() {
        let t = swapped(s, j, right_of(j));
        lemma_sift_down_keeps_prefix(t, right_of(j), j);
        lemma_sift_down_keeps_prefix(t, right_of(j), left_of(j));
    }
}

/// An item pushed onto an empty heap is the whole heap, and popping it leaves the heap
/// empty again.
pub proof fn lemma_push_pop_round_trip<T: HeapItem>(item: T)
    ensures
        pushed(Seq::<T>::empty(), item) == seq![item],
        popped(seq![item]) == Seq::<T>::empty(),
        drained(pushed(Seq::<T>::empty(), item)) == seq![item],
{
    assert(drained(Seq::<T>::empty()) =~= Seq::<T>::empty());
}

/// A heap built from no items is empty, and so is its index.
pub proof fn lemma_heapified_nothing<T: HeapItem>()
    ensures
        heapified(Seq::<T>::empty()) == Seq::<T>::empty(),
        heapified_index(Seq::<T>::empty()) == Map::<Id, usize>::empty(),
        heap_ordered(Seq::<T>::empty()),
        indexed(Seq::<T>::empty(), Map::<Id, usize>::empty()),
{
}

} // verus!
