//! Facts about the index: an index admits no double id and is as large as its array,
//! and every structural step of the heap keeps an index an index.

use vstd::prelude::*;
use crate::index::{
    consistent_but_at, entered, has_id, heapified_index, heapified_index_from, id_free_at,
    ids_unique, indexed, sift_down_index, sift_up_index, transposed_index,
};
use crate::item::{HeapItem, Id, Key};
use crate::order::{
    heap_ordered, heap_ordered_except_above, heap_ordered_except_below, heapified,
    heapified_from, larger_child, ordered_at, parent_of, rises, sift_down_seq, sift_up_seq,
    sinks, swapped,
};

verus! {

/// An index admits no two items with one id.
pub proof fn lemma_indexed_unique<T: HeapItem>(s: Seq<T>, m: Map<Id, usize>)
    requires
        indexed(s, m),
    ensures
        ids_unique(s),
        forall|id: Id| has_id(s, id) <==> m.contains_key(id),
{
}

/// An index holds as many ids as the array holds items.
pub proof fn lemma_indexed_len<T: HeapItem>(s: Seq<T>, m: Map<Id, usize>)
    requires
        indexed(s, m),
        m.dom().finite(),
    ensures
        m.dom().len() == s.len(),
    decreases s.len(),
{
    if s.len() == 0 {
        assert(m.dom() =~= Set::<Id>::empty());
    } else {
        lemma_indexed_len(s.drop_last(), m.remove(s.last().spec_id()));
    }
}

/// A map that sends the id of every item to the item's position, and holds as many ids
/// as the array holds items, is the index of the array.
pub proof fn lemma_indexed_by_count<T: HeapItem>(s: Seq<T>, m: Map<Id, usize>)
    requires
        m.dom().finite(),
        m.dom().len() == s.len(),
        forall|i: int|
            #![trigger s[i]]
            0 <= i < s.len() ==> m.contains_key(s[i].spec_id()) && m[s[i].spec_id()] == i,
    ensures
        indexed(s, m),
    decreases s.len(),
{
    if s.len() > 0 {
        let rest = m.remove(s.last().spec_id());
        assert(rest.dom() =~= m.dom().remove(s.last().spec_id()));
        lemma_indexed_by_count(s.drop_last(), rest);
    }
}

/// Exchanging two items and pointing their ids at the exchanged positions keeps the
/// index an index.
pub proof fn lemma_indexed_swapped<T: HeapItem>(s: Seq<T>, m: Map<Id, usize>, i: int, j: int)
    requires
        indexed(s, m),
        0 <= i < s.len(),
        0 <= j < s.len(),
    ensures
        indexed(swapped(s, i, j), transposed_index(s, m, i, j)),
{
    lemma_indexed_unique(s, m);
}

/// Sinking keeps the index an index.
pub proof fn lemma_sift_down_indexed<T: HeapItem>(s: Seq<T>, m: Map<Id, usize>, j: int)
    requires
        indexed(s, m),
    ensures
        indexed(sift_down_seq(s, j), sift_down_index(s, m, j)),
    decreases s.len() - j,
{
    if sinks(s, j) {
        let c = larger_child(s, j);
        lemma_indexed_swapped(s, m, j, c);
        lemma_sift_down_indexed(swapped(s, j, c), transposed_index(s, m, j, c), c);
    }
}

/// Rising keeps the index an index.
pub proof fn lemma_sift_up_indexed<T: HeapItem>(s: Seq<T>, m: Map<Id, usize>, j: int)
    requires
        indexed(s, m),
    ensures
        indexed(sift_up_seq(s, j), sift_up_index(s, m, j)),
    decreases j,
{
    if rises(s, j) {
        let p = parent_of(j);
        lemma_indexed_swapped(s, m, j, p);
        lemma_sift_up_indexed(swapped(s, j, p), transposed_index(s, m, j, p), p);
    }
}

/// Entering the ids of an array one by one gives its index, where no two items share
/// an id and the positions fit the machine's word.
pub proof fn lemma_entered_indexed<T: HeapItem>(s: Seq<T>, n: int)
    requires
        ids_unique(s),
        0 <= n <= s.len() <= usize::MAX,
    ensures
        indexed(s.take(n), entered(s, n)),
    decreases n,
{
    if n > 0 {
        lemma_entered_indexed(s, n - 1);
    }
}

/// Sinking the positions `k - 1` down to `0` keeps the index an index.
pub proof fn lemma_heapified_from_indexed<T: HeapItem>(s: Seq<T>, m: Map<Id, usize>, k: int)
    requires
        indexed(s, m),
    ensures
        indexed(heapified_from(s, k), heapified_index_from(s, m, k)),
    decreases k,
{
    if k > 0 {
        lemma_sift_down_indexed(s, m, k - 1);
        lemma_heapified_from_indexed(sift_down_seq(s, k - 1), sift_down_index(s, m, k - 1), k - 1);
    }
}

/// The index built with a heap is exact where no two items share an id and the
/// positions fit the machine's word.
pub proof fn lemma_heapified_indexed<T: HeapItem>(s: Seq<T>)
    requires
        ids_unique(s),
        s.len() <= usize::MAX,
    ensures
        indexed(heapified(s), heapified_index(s)),
{
    lemma_entered_indexed(s, s.len() as int);
    assert(s.take(s.len() as int) =~= s);
    lemma_heapified_from_indexed(s, entered(s, s.len() as int), s.len() as int / 2);
}

/// Appending an item whose id is not in the array, and entering the id with the new
/// position, keeps the index an index.
pub proof fn lemma_indexed_pushed<T: HeapItem>(s: Seq<T>, m: Map<Id, usize>, item: T)
    requires
        indexed(s, m),
        !has_id(s, item.spec_id()),
        s.len() <= usize::MAX,
    ensures
        indexed(s.push(item), m.insert(item.spec_id(), s.len() as usize)),
{
}

/// Exchanging the root with the last item, dropping the last position and forgetting
/// the id of the old root keeps the index an index.
pub proof fn lemma_indexed_popped<T: HeapItem>(s: Seq<T>, m: Map<Id, usize>)
    requires
        indexed(s, m),
        s.len() > 0,
    ensures
        indexed(
            s.update(0, s.last()).drop_last(),
            transposed_index(s, m, 0, s.len() - 1).remove(s[0].spec_id()),
        ),
{
    let last = s.len() - 1;
    lemma_indexed_swapped(s, m, 0, last);
    lemma_indexed_unique(swapped(s, 0, last), transposed_index(s, m, 0, last));
}

/// A heap is consistent but at any of its positions, with the key and the id of the
/// item there.
pub proof fn lemma_consistent_at_item<T: HeapItem>(s: Seq<T>, m: Map<Id, usize>, j: int)
    requires
        heap_ordered(s),
        indexed(s, m),
        0 <= j < s.len(),
    ensures
        consistent_but_at(s, m, j, s[j].spec_key(), s[j].spec_id()),
        id_free_at(s, j),
{
    lemma_indexed_unique(s, m);
    assert forall|i: int| 0 < i < s.len() && #[trigger] parent_of(i) == j implies
        s[i].spec_key() <= s[j].spec_key() by {
        assert(ordered_at(s, i));
    }
    if j > 0 {
        assert(ordered_at(s, j));
    }
}

/// Consistency but at `j` does not depend on the item at `j`.
pub proof fn lemma_consistent_but_at_rewrite<T: HeapItem>(
    s: Seq<T>,
    m: Map<Id, usize>,
    j: int,
    key: Key,
    id: Id,
    item: T,
)
    requires
        consistent_but_at(s, m, j, key, id),
    ensures
        consistent_but_at(s.update(j, item), m, j, key, id),
{
    let t = s.update(j, item);
    assert forall|i: int| 0 < i < t.len() && i != j && parent_of(i) != j implies
        #[trigger] ordered_at(t, i) by {
        assert(ordered_at(s, i));
    }
}

/// Once the index has forgotten the original id and learnt the current one, a heap
/// that was consistent but at `j` is exactly indexed, and the item at `j` can sink or
/// rise, as its key went down or up.
pub proof fn lemma_consistent_but_at_rekeyed<T: HeapItem>(
    s: Seq<T>,
    m: Map<Id, usize>,
    j: int,
    key: Key,
    id: Id,
)
    requires
        consistent_but_at(s, m, j, key, id),
        id_free_at(s, j),
    ensures
        indexed(s, m.remove(id).insert(s[j].spec_id(), j as usize)),
        key >= s[j].spec_key() ==> heap_ordered_except_below(s, 0, j),
        key <= s[j].spec_key() ==> heap_ordered_except_above(s, j),
        key == s[j].spec_key() ==> heap_ordered(s),
{
}

} // verus!
