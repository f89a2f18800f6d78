//! The mutating navigator: a position in the heap's array that can exchange its item
//! with another position's and let it rise or sink, keeping the index in step.

use vstd::prelude::*;
use vstd::std_specs::hash::group_hash_axioms;
use std::collections::HashMap;
use crate::index::{indexed, sift_down_index, sift_up_index, transposed_index};
use crate::index_lemmas::{lemma_indexed_swapped, lemma_sift_down_indexed, lemma_sift_up_indexed};
use crate::item::{HeapItem, Id};
use crate::order::{
    heap_ordered, heap_ordered_except_above, heap_ordered_except_below, left_of, parent_of,
    right_of, rises, sift_down_end, sift_down_seq, sift_up_end, sift_up_seq, swapped,
};
use crate::order_lemmas::{
    lemma_sift_down_permutes, lemma_sift_down_restores, lemma_sift_up_permutes,
    lemma_sift_up_restores,
};

verus! {

/// Exchanges the items at two positions of a vector.
fn swap_items<T>(items: &mut Vec<T>, i: usize, j: usize)
    requires
        i < old(items)@.len(),
        j < old(items)@.len(),
    ensures
        final(items)@ == swapped(old(items)@, i as int, j as int),
{
    if i == j {
        return ;
    }
    let (low, high): (usize, usize) = if i < j {
        (i, j)
    } else {
        (j, i)
    };
    let (head, tail) = items.as_mut_slice().split_at_mut(high);
    let (front, _) = head.split_at_mut(low + 1);
    core::mem::swap(front.last_mut().unwrap(), tail.first_mut().unwrap());
}

/// A position in a heap's array, with exclusive access to the array and its index.
///
/// A method that moves the navigator leaves it borrowing the same array and the same
/// index as before: the last two clauses of each such contract say so, and let a caller
/// conclude what the lender holds once the navigator is gone.
pub struct HeapViewMut<'a, T: HeapItem> {
    pub index: usize,
    pub heap: &'a mut Vec<T>,
    pub index_map: &'a mut HashMap<Id, usize>,
}

impl<'a, T: HeapItem> HeapViewMut<'a, T> {
    /// The array as it stands.
    pub open spec fn items(&self) -> Seq<T> {
        self.heap@
    }

    /// The index as it stands.
    pub open spec fn positions(&self) -> Map<Id, usize> {
        self.index_map@
    }

    /// The parent position; nothing at the root.
    pub fn parent(&self) -> (r: Option<usize>)
        ensures
            match r {
                Some(i) => self.index > 0 && i == parent_of(self.index as int),
                None => self.index == 0,
            },
    {
        if self.index == 0 {
            None
        } else {
            Some((self.index - 1) / 2)
        }
    }

    /// The position of the left child; nothing where the array ends before it.
    pub fn left_index(&self) -> (r: Option<usize>)
        ensures
            match r {
                Some(i) => i == left_of(self.index as int) && i < self.items().len(),
                None => left_of(self.index as int) >= self.items().len(),
            },
    {
        if self.index > (usize::MAX - 1) / 2 {
            assert(self.heap.len() <= usize::MAX);
            None
        } else {
            let index: usize = 2 * self.index + 1;
            if index < self.heap.len() {
                Some(index)
            } else {
                None
            }
        }
    }

    /// The position of the right child; nothing where the array ends before it.
    pub fn right_index(&self) -> (r: Option<usize>)
        ensures
            match r {
                Some(i) => i == right_of(self.index as int) && i < self.items().len(),
                None => right_of(self.index as int) >= self.items().len(),
            },
    {
        if self.index > (usize::MAX - 2) / 2 {
            assert(self.heap.len() <= usize::MAX);
            None
        } else {
            let index: usize = 2 * self.index + 2;
            if index < self.heap.len() {
                Some(index)
            } else {
                None
            }
        }
    }

    /// Exchanges the item at this position with the item at `dest`, points both ids at
    /// their new positions, and moves to `dest`.
    pub fn transpose(&mut self, dest: usize)
        requires
            old(self).index < old(self).items().len(),
            dest < old(self).items().len(),
        ensures
            final(self).index == dest,
            final(self).items() == swapped(old(self).items(), old(self).index as int, dest as int),
            final(self).positions() == transposed_index(
                old(self).items(),
                old(self).positions(),
                old(self).index as int,
                dest as int,
            ),
            indexed(old(self).items(), old(self).positions()) ==> indexed(
                final(self).items(),
                final(self).positions(),
            ),
            *final(final(self).heap) == *final(old(self).heap),
            *final(final(self).index_map) == *final(old(self).index_map),
    {
        broadcast use group_hash_axioms;

        let here: usize = self.index;
        let here_id = self.heap[here].id();
        let dest_id = self.heap[dest].id();
        proof {
            if indexed(self.items(), self.positions()) {
                lemma_indexed_swapped(self.items(), self.positions(), here as int, dest as int);
            }
        }
        self.index_map.insert(here_id, dest);
        self.index_map.insert(dest_id, here);
        swap_items(self.heap, here, dest);
        self.index = dest;
    }

    /// Lets the item at this position rise: while it outranks its parent, the two are
    /// exchanged. The navigator follows the item.
    pub fn sift_up(&mut self)
        requires
            old(self).index == 0 || old(self).index < old(self).items().len(),
        ensures
            final(self).items() == sift_up_seq(old(self).items(), old(self).index as int),
            final(self).positions() == sift_up_index(
                old(self).items(),
                old(self).positions(),
                old(self).index as int,
            ),
            final(self).index == sift_up_end(old(self).items(), old(self).index as int),
            final(self).index <= old(self).index,
            final(self).items().len() == old(self).items().len(),
            final(self).items().to_multiset() == old(self).items().to_multiset(),
            indexed(old(self).items(), old(self).positions()) ==> indexed(
                final(self).items(),
                final(self).positions(),
            ),
            heap_ordered_except_above(old(self).items(), old(self).index as int) ==> heap_ordered(
                final(self).items(),
            ),
            *final(final(self).heap) == *final(old(self).heap),
            *final(final(self).index_map) == *final(old(self).index_map),
    {
        proof {
            lemma_sift_up_permutes(self.items(), self.index as int);
            if heap_ordered_except_above(self.items(), self.index as int) {
                lemma_sift_up_restores(self.items(), self.index as int);
            }
            if indexed(self.items(), self.positions()) {
                lemma_sift_up_indexed(self.items(), self.positions(), self.index as int);
            }
        }
        loop
            invariant
                self.index == 0 || self.index < self.items().len(),
                sift_up_seq(self.items(), self.index as int) == sift_up_seq(
                    old(self).items(),
                    old(self).index as int,
                ),
                sift_up_end(self.items(), self.index as int) == sift_up_end(
                    old(self).items(),
                    old(self).index as int,
                ),
                sift_up_index(self.items(), self.positions(), self.index as int) == sift_up_index(
                    old(self).items(),
                    old(self).positions(),
                    old(self).index as int,
                ),
                *final(self.heap) == *final(old(self).heap),
                *final(self.index_map) == *final(old(self).index_map),
            ensures
                !rises(self.items(), self.index as int),
            decreases self.index,
        {
            match self.parent() {
                None => {
                    break ;
                },
                Some(parent_index) => {
                    if self.heap[parent_index].key() < self.heap[self.index].key() {
                        self.transpose(parent_index);
                    } else {
                        break ;
                    }
                },
            }
        }
    }

    /// Lets the item at this position sink: while a child outranks it, it is exchanged
    /// with the child of the larger key, the right child where both keys are equal. The
    /// navigator follows the item.
    pub fn sift_down(&mut self)
        ensures
            final(self).items() == sift_down_seq(old(self).items(), old(self).index as int),
            final(self).positions() == sift_down_index(
                old(self).items(),
                old(self).positions(),
                old(self).index as int,
            ),
            final(self).index == sift_down_end(old(self).items(), old(self).index as int),
            final(self).index == old(self).index || old(self).index < final(self).index
                < old(self).items().len(),
            final(self).items().len() == old(self).items().len(),
            final(self).items().to_multiset() == old(self).items().to_multiset(),
            indexed(old(self).items(), old(self).positions()) ==> indexed(
                final(self).items(),
                final(self).positions(),
            ),
            heap_ordered_except_below(old(self).items(), 0, old(self).index as int)
                ==> heap_ordered(final(self).items()),
            *final(final(self).heap) == *final(old(self).heap),
            *final(final(self).index_map) == *final(old(self).index_map),
        decreases old(self).items().len() - old(self).index,
    {
        proof {
            lemma_sift_down_permutes(self.items(), self.index as int);
            if heap_ordered_except_below(self.items(), 0, self.index as int) {
                lemma_sift_down_restores(self.items(), 0, self.index as int);
            }
            if indexed(self.items(), self.positions()) {
                lemma_sift_down_indexed(self.items(), self.positions(), self.index as int);
            }
        }
        let left_index = self.left_index();
        let right_index = self.right_index();
        match (left_index, right_index) {
            (None, None) => {},
            (Some(left), Some(right)) => {
                let max = if self.heap[left].key() > self.heap[right].key() {
                    left
                } else {
                    right
                };
                if self.heap[self.index].key() < self.heap[max].key() {
                    self.transpose(max);
                    self.sift_down();
                }
            },
            (Some(index), None) | (None, Some(index)) => {
                if self.heap[self.index].key() < self.heap[index].key() {
                    self.transpose(index);
                    self.sift_down();
                }
            },
        }
    }
}

} // verus!
