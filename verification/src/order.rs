//! The heap as an array laid out as a binary tree: the positions of parents and
//! children, heap order and its two local exceptions, and what sinking, rising,
//! building, pushing and popping make of an array.

use vstd::prelude::*;
use crate::item::{HeapItem, Key};

verus! {

/// Position of the parent of position `i` (for `i > 0`).
pub open spec fn parent_of(i: int) -> int {
    (i - 1) / 2
}

/// Position of the left child of position `i`.
pub open spec fn left_of(i: int) -> int {
    2 * i + 1
}

/// Position of the right child of position `i`.
pub open spec fn right_of(i: int) -> int {
    2 * i + 2
}

/// The array with the items at `i` and `j` exchanged.
pub open spec fn swapped<T>(s: Seq<T>, i: int, j: int) -> Seq<T> {
    s.update(i, s[j]).update(j, s[i])
}

/// The item at `i` does not outrank its parent.
pub open spec fn ordered_at<T: HeapItem>(s: Seq<T>, i: int) -> bool {
    s[i].spec_key() <= s[parent_of(i)].spec_key()
}

/// Heap order from `lo` on: no item whose parent sits at `lo` or later outranks that
/// parent. The subtrees rooted at `lo` and later are heaps.
pub open spec fn heap_ordered_from<T: HeapItem>(s: Seq<T>, lo: int) -> bool {
    forall|i: int| 0 < i < s.len() && lo <= parent_of(i) ==> #[trigger] ordered_at(s, i)
}

/// Heap order: no item outranks its parent.
pub open spec fn heap_ordered<T: HeapItem>(s: Seq<T>) -> bool {
    heap_ordered_from(s, 0)
}

/// Heap order from `lo` on, except that the item at `j` may be outranked by its children.
/// The children of `j` are already below the parent of `j`, so the item may sink.
pub open spec fn heap_ordered_except_below<T: HeapItem>(s: Seq<T>, lo: int, j: int) -> bool {
    &&& forall|i: int|
        0 < i < s.len() && lo <= parent_of(i) && parent_of(i) != j ==> #[trigger] ordered_at(s, i)
    &&& j > 0 && lo <= parent_of(j) ==> forall|i: int|
        0 < i < s.len() && #[trigger] parent_of(i) == j
            ==> s[i].spec_key() <= s[parent_of(j)].spec_key()
}

/// Heap order, except that the item at `j` may outrank its parent. The children of `j`
/// are already below the parent of `j`, so the item may rise.
pub open spec fn heap_ordered_except_above<T: HeapItem>(s: Seq<T>, j: int) -> bool {
    &&& forall|i: int| 0 < i < s.len() && i != j ==> #[trigger] ordered_at(s, i)
    &&& j > 0 ==> forall|i: int|
        0 < i < s.len() && #[trigger] parent_of(i) == j
            ==> s[i].spec_key() <= s[parent_of(j)].spec_key()
}

/// The keys of the sequence never go up from one item to a later one.
pub open spec fn descending<T: HeapItem>(s: Seq<T>) -> bool {
    forall|i: int, j: int|
        0 <= i <= j < s.len() ==> (#[trigger] s[j]).spec_key() <= (#[trigger] s[i]).spec_key()
}

/// The child that a sinking item at `j` is compared with: the one with the larger key,
/// and the right one where both keys are equal. Meaningful where `j` has a left child.
pub open spec fn larger_child<T: HeapItem>(s: Seq<T>, j: int) -> int {
    if right_of(j) < s.len() && s[left_of(j)].spec_key() <= s[right_of(j)].spec_key() {
        right_of(j)
    } else {
        left_of(j)
    }
}

/// The item at `j` has a child that outranks it.
pub open spec fn sinks<T: HeapItem>(s: Seq<T>, j: int) -> bool {
    0 <= j && left_of(j) < s.len() && s[j].spec_key() < s[larger_child(s, j)].spec_key()
}

/// The array after the item at `j` has sunk as far as it goes.
pub open spec fn sift_down_seq<T: HeapItem>(s: Seq<T>, j: int) -> Seq<T>
    decreases s.len() - j,
{
    if sinks(s, j) {
        sift_down_seq(swapped(s, j, larger_child(s, j)), larger_child(s, j))
    } else {
        s
    }
}

/// The position at which an item sinking from `j` comes to rest.
pub open spec fn sift_down_end<T: HeapItem>(s: Seq<T>, j: int) -> int
    decreases s.len() - j,
{
    if sinks(s, j) {
        sift_down_end(swapped(s, j, larger_child(s, j)), larger_child(s, j))
    } else {
        j
    }
}

/// The item at `j` outranks its parent.
pub open spec fn rises<T: HeapItem>(s: Seq<T>, j: int) -> bool {
    0 < j < s.len() && s[parent_of(j)].spec_key() < s[j].spec_key()
}

/// The array after the item at `j` has risen as far as it goes.
pub open spec fn sift_up_seq<T: HeapItem>(s: Seq<T>, j: int) -> Seq<T>
    decreases j,
{
    if rises(s, j) {
        sift_up_seq(swapped(s, j, parent_of(j)), parent_of(j))
    } else {
        s
    }
}

/// The position at which an item rising from `j` comes to rest.
pub open spec fn sift_up_end<T: HeapItem>(s: Seq<T>, j: int) -> int
    decreases j,
{
    if rises(s, j) {
        sift_up_end(swapped(s, j, parent_of(j)), parent_of(j))
    } else {
        j
    }
}

/// The array after the items at `k - 1`, `k - 2`, ..., `0` have sunk, in that order.
pub open spec fn heapified_from<T: HeapItem>(s: Seq<T>, k: int) -> Seq<T>
    decreases k,
{
    if k <= 0 {
        s
    } else {
        heapified_from(sift_down_seq(s, k - 1), k - 1)
    }
}

/// The heap built bottom-up from an arbitrary array: every position that has a child
/// sinks, the last such position first.
pub open spec fn heapified<T: HeapItem>(s: Seq<T>) -> Seq<T> {
    heapified_from(s, s.len() as int / 2)
}

/// The heap after `item` was appended and has risen.
pub open spec fn pushed<T: HeapItem>(s: Seq<T>, item: T) -> Seq<T> {
    sift_up_seq(s.push(item), s.len() as int)
}

/// The heap after its root was taken out: the last item moves to the root and sinks.
pub open spec fn popped<T: HeapItem>(s: Seq<T>) -> Seq<T> {
    if s.len() == 0 {
        s
    } else {
        sift_down_seq(s.update(0, s.last()).drop_last(), 0)
    }
}

/// The heap after the item at `j`, whose key used to be `original_key`, was rewritten:
/// it sinks if its key went down, rises if its key went up, and stays otherwise.
pub open spec fn released<T: HeapItem>(s: Seq<T>, j: int, original_key: Key) -> Seq<T> {
    if original_key > s[j].spec_key() {
        sift_down_seq(s, j)
    } else if original_key < s[j].spec_key() {
        sift_up_seq(s, j)
    } else {
        s
    }
}

} // verus!
