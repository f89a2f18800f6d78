//! Facts about heap order: sinking and rising permute the array and mend the order
//! they are meant to mend, the root of a heap is a maximum, and building, pushing and
//! popping give heaps.

use vstd::prelude::*;
use vstd::seq_lib::group_to_multiset_ensures;
use crate::item::HeapItem;
use crate::order::{
    heap_ordered, heap_ordered_except_above, heap_ordered_except_below, heap_ordered_from,
    heapified, heapified_from, larger_child, left_of, ordered_at, parent_of, popped, pushed,
    right_of, rises, sift_down_end, sift_down_seq, sift_up_end, sift_up_seq, sinks, swapped,
};

verus! {

/// Exchanging two items keeps the length and the items.
pub proof fn lemma_swapped_permutes<T>(s: Seq<T>, i: int, j: int)
    requires
        0 <= i < s.len(),
        0 <= j < s.len(),
    ensures
        swapped(s, i, j).len() == s.len(),
        swapped(s, i, j).to_multiset() == s.to_multiset(),
{
    broadcast use group_to_multiset_ensures;
}

/// Sinking keeps the length and the items, and the item comes to rest at or below
/// where it started.
pub proof fn lemma_sift_down_permutes<T: HeapItem>(s: Seq<T>, j: int)
    ensures
        sift_down_seq(s, j).len() == s.len(),
        sift_down_seq(s, j).to_multiset() == s.to_multiset(),
        sift_down_end(s, j) == j || j < sift_down_end(s, j) < s.len(),
    decreases s.len() - j,
{
    if sinks(s, j) {
        let m = larger_child(s, j);
        lemma_swapped_permutes(s, j, m);
        lemma_sift_down_permutes(swapped(s, j, m), m);
    }
}

/// Sinking restores heap order: if only the item at `j` may be outranked by its
/// children, then after it has sunk no item is.
pub proof fn lemma_sift_down_restores<T: HeapItem>(s: Seq<T>, lo: int, j: int)
    requires
        0 <= lo <= j,
        heap_ordered_except_below(s, lo, j),
    ensures
        heap_ordered_from(sift_down_seq(s, j), lo),
    decreases s.len() - j,
{
    if sinks(s, j) {
        let m = larger_child(s, j);
        let t = swapped(s, j, m);
        assert forall|i: int|
            0 < i < t.len() && lo <= parent_of(i) && parent_of(i) != m implies
            #[trigger] ordered_at(t, i) by {
            if i == m {
            } else if parent_of(i) == j {
                assert(i == left_of(j) || i == right_of(j));
            } else if i == j {
                assert(parent_of(m) == j);
            } else {
                assert(ordered_at(s, i));
            }
        }
        assert forall|i: int|
            0 < i < t.len() && #[trigger] parent_of(i) == m implies
            t[i].spec_key() <= t[parent_of(m)].spec_key() by {
            assert(ordered_at(s, i));
        }
        lemma_sift_down_restores(t, lo, m);
    }
}

/// Rising keeps the length and the items, and the item comes to rest at or above
/// where it started.
pub proof fn lemma_sift_up_permutes<T: HeapItem>(s: Seq<T>, j: int)
    ensures
        sift_up_seq(s, j).len() == s.len(),
        sift_up_seq(s, j).to_multiset() == s.to_multiset(),
        sift_up_end(s, j) <= j,
        0 <= j ==> 0 <= sift_up_end(s, j),
    decreases j,
{
    if rises(s, j) {
        let p = parent_of(j);
        lemma_swapped_permutes(s, j, p);
        lemma_sift_up_permutes(swapped(s, j, p), p);
    }
}

/// Rising restores heap order: if only the item at `j` may outrank its parent, then
/// after it has risen no item does.
pub proof fn lemma_sift_up_restores<T: HeapItem>(s: Seq<T>, j: int)
    requires
        0 <= j,
        heap_ordered_except_above(s, j),
    ensures
        heap_ordered(sift_up_seq(s, j)),
    decreases j,
{
    if rises(s, j) {
        let p = parent_of(j);
        let t = swapped(s, j, p);
        assert forall|i: int| 0 < i < t.len() && i != p implies #[trigger] ordered_at(t, i) by {
            if i != j && parent_of(i) != j {
                assert(ordered_at(s, i));
            }
        }
        if p > 0 {
            assert(ordered_at(s, p));
            assert forall|i: int|
                0 < i < t.len() && #[trigger] parent_of(i) == p implies
                t[i].spec_key() <= t[parent_of(p)].spec_key() by {
                if i != j {
                    assert(ordered_at(s, i));
                }
            }
        }
        lemma_sift_up_restores(t, p);
    }
}

/// The root of a heap outranks, or equals in rank, every item.
pub proof fn lemma_root_is_max<T: HeapItem>(s: Seq<T>, i: int)
    requires
        heap_ordered(s),
        0 <= i < s.len(),
    ensures
        s[i].spec_key() <= s[0].spec_key(),
    decreases i,
{
    if i > 0 {
        assert(ordered_at(s, i));
        lemma_root_is_max(s, parent_of(i));
    }
}

/// Sinking the positions `k - 1` down to `0` keeps the length and the items, and turns
/// heap order below `k` into heap order.
pub proof fn lemma_heapified_from<T: HeapItem>(s: Seq<T>, k: int)
    requires
        heap_ordered_from(s, k),
    ensures
        heapified_from(s, k).len() == s.len(),
        heapified_from(s, k).to_multiset() == s.to_multiset(),
        heap_ordered(heapified_from(s, k)),
    decreases k,
{
    if k > 0 {
        lemma_sift_down_permutes(s, k - 1);
        lemma_sift_down_restores(s, k - 1, k - 1);
        lemma_heapified_from(sift_down_seq(s, k - 1), k - 1);
    }
}

/// Building a heap from any array keeps the length and the items and yields heap order.
pub proof fn lemma_heapified<T: HeapItem>(s: Seq<T>)
    ensures
        heapified(s).len() == s.len(),
        heapified(s).to_multiset() == s.to_multiset(),
        heap_ordered(heapified(s)),
{
    lemma_heapified_from(s, s.len() as int / 2);
}

/// Adding an item to a heap gives a heap that holds the item besides the old ones.
pub proof fn lemma_pushed<T: HeapItem>(s: Seq<T>, item: T)
    requires
        heap_ordered(s),
    ensures
        heap_ordered(pushed(s, item)),
        pushed(s, item).len() == s.len() + 1,
        pushed(s, item).to_multiset() == s.to_multiset().insert(item),
{
    broadcast use group_to_multiset_ensures;

    let t = s.push(item);
    assert forall|i: int| 0 < i < t.len() && i != s.len() implies #[trigger] ordered_at(t, i) by {
        assert(ordered_at(s, i));
    }
    lemma_sift_up_permutes(t, s.len() as int);
    lemma_sift_up_restores(t, s.len() as int);
}

/// Taking the root out of a heap gives a heap that holds the other items; the root
/// outranks, or equals in rank, each of them.
pub proof fn lemma_popped<T: HeapItem>(s: Seq<T>)
    requires
        heap_ordered(s),
        s.len() > 0,
    ensures
        heap_ordered(popped(s)),
        popped(s).len() == s.len() - 1,
        popped(s).to_multiset().insert(s[0]) == s.to_multiset(),
        forall|i: int| 0 <= i < s.len() ==> (#[trigger] s[i]).spec_key() <= s[0].spec_key(),
        forall|i: int|
            0 <= i < popped(s).len() ==> (#[trigger] popped(s)[i]).spec_key() <= s[0].spec_key(),
{
    broadcast use group_to_multiset_ensures;

    assert forall|i: int| 0 <= i < s.len() implies
        (#[trigger] s[i]).spec_key() <= s[0].spec_key() by {
        lemma_root_is_max(s, i);
    }
    let t = s.update(0, s.last()).drop_last();
    assert forall|i: int|
        0 < i < t.len() && 0 <= parent_of(i) && parent_of(i) != 0 implies
        #[trigger] ordered_at(t, i) by {
        assert(ordered_at(s, i));
    }
    lemma_sift_down_permutes(t, 0);
    lemma_sift_down_restores(t, 0, 0);
    lemma_swapped_permutes(s, 0, s.len() - 1);
    assert(swapped(s, 0, s.len() - 1) =~= t.push(s[0]));
    assert forall|i: int| 0 <= i < popped(s).len() implies
        (#[trigger] popped(s)[i]).spec_key() <= s[0].spec_key() by {
        let x = popped(s)[i];
        assert(popped(s).to_multiset().count(x) > 0);
        assert(s.contains(x));
    }
}

} // verus!
