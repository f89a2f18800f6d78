//! The index from ids to positions: what it means for a map to be the index of an
//! array, and what entering, exchanging, sinking and rising make of a map.

use vstd::prelude::*;
use crate::item::{HeapItem, Id, Key};
use crate::order::{larger_child, ordered_at, parent_of, rises, sift_down_seq, sinks, swapped};

verus! {

/// Some item of the array carries the id.
pub open spec fn has_id<T: HeapItem>(s: Seq<T>, id: Id) -> bool {
    exists|i: int| 0 <= i < s.len() && #[trigger] s[i].spec_id() == id
}

/// No two items of the array share an id.
pub open spec fn ids_unique<T: HeapItem>(s: Seq<T>) -> bool {
    forall|i: int, j: int|
        0 <= i < s.len() && 0 <= j < s.len() && i != j ==> #[trigger] s[i].spec_id()
            != #[trigger] s[j].spec_id()
}

/// The map `m` is the index of the array `s`: it sends the id of every item to the
/// position of that item, and holds nothing else.
pub open spec fn indexed<T: HeapItem>(s: Seq<T>, m: Map<Id, usize>) -> bool {
    &&& forall|i: int|
        #![trigger s[i]]
        0 <= i < s.len() ==> m.contains_key(s[i].spec_id()) && m[s[i].spec_id()] == i
    &&& forall|k: Id|
        #[trigger] m.contains_key(k) ==> m[k] < s.len() && s[m[k] as int].spec_id() == k
}

/// The array `s` with the index `m` is a heap in order and exactly indexed, but for
/// position `j`: there it is as if the item had the key `key` and the id `id`, whatever
/// the item at `j` holds now.
pub open spec fn consistent_but_at<T: HeapItem>(
    s: Seq<T>,
    m: Map<Id, usize>,
    j: int,
    key: Key,
    id: Id,
) -> bool {
    &&& 0 <= j < s.len()
    &&& m.contains_key(id)
    &&& m[id] == j
    &&& forall|i: int|
        #![trigger s[i]]
        0 <= i < s.len() && i != j ==> m.contains_key(s[i].spec_id()) && m[s[i].spec_id()] == i
    &&& forall|k: Id|
        #[trigger] m.contains_key(k) ==> m[k] < s.len() && if m[k] == j {
            k == id
        } else {
            s[m[k] as int].spec_id() == k
        }
    &&& forall|i: int|
        0 < i < s.len() && i != j && parent_of(i) != j ==> #[trigger] ordered_at(s, i)
    &&& j > 0 ==> key <= s[parent_of(j)].spec_key()
    &&& forall|i: int| 0 < i < s.len() && #[trigger] parent_of(i) == j ==> s[i].spec_key() <= key
}

/// No item of `s` other than the one at `j` carries the id of the item at `j`.
pub open spec fn id_free_at<T: HeapItem>(s: Seq<T>, j: int) -> bool {
    forall|i: int| #![trigger s[i]] 0 <= i < s.len() && i != j ==> s[i].spec_id() != s[j].spec_id()
}

/// The index after the ids of the items at `i` and `j` were pointed at each other's
/// positions.
pub open spec fn transposed_index<T: HeapItem>(
    s: Seq<T>,
    m: Map<Id, usize>,
    i: int,
    j: int,
) -> Map<Id, usize> {
    m.insert(s[i].spec_id(), j as usize).insert(s[j].spec_id(), i as usize)
}

/// The index after the item at `j` has sunk as far as it goes.
pub open spec fn sift_down_index<T: HeapItem>(s: Seq<T>, m: Map<Id, usize>, j: int) -> Map<
    Id,
    usize,
>
    decreases s.len() - j,
{
    if sinks(s, j) {
        sift_down_index(
            swapped(s, j, larger_child(s, j)),
            transposed_index(s, m, j, larger_child(s, j)),
            larger_child(s, j),
        )
    } else {
        m
    }
}

/// The index after the item at `j` has risen as far as it goes.
pub open spec fn sift_up_index<T: HeapItem>(s: Seq<T>, m: Map<Id, usize>, j: int) -> Map<
    Id,
    usize,
>
    decreases j,
{
    if rises(s, j) {
        sift_up_index(
            swapped(s, j, parent_of(j)),
            transposed_index(s, m, j, parent_of(j)),
            parent_of(j),
        )
    } else {
        m
    }
}

/// The index after the ids of the first `n` items were entered with their positions,
/// one by one: where two items share an id, the later one is the one found.
pub open spec fn entered<T: HeapItem>(s: Seq<T>, n: int) -> Map<Id, usize>
    decreases n,
{
    if n <= 0 {
        Map::empty()
    } else {
        entered(s, n - 1).insert(s[n - 1].spec_id(), (n - 1) as usize)
    }
}

/// The index after the items at `k - 1`, `k - 2`, ..., `0` have sunk, in that order.
pub open spec fn heapified_index_from<T: HeapItem>(s: Seq<T>, m: Map<Id, usize>, k: int) -> Map<
    Id,
    usize,
>
    decreases k,
{
    if k <= 0 {
        m
    } else {
        heapified_index_from(sift_down_seq(s, k - 1), sift_down_index(s, m, k - 1), k - 1)
    }
}

/// The index of the heap built bottom-up from an arbitrary array.
pub open spec fn heapified_index<T: HeapItem>(s: Seq<T>) -> Map<Id, usize> {
    heapified_index_from(s, entered(s, s.len() as int), s.len() as int / 2)
}

} // verus!
