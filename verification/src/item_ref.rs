//! The scoped mutation handle: exclusive access to one item of the heap, which may be
//! rewritten at will; releasing the handle re-keys the index and restores heap order.

use vstd::prelude::*;
use vstd::std_specs::hash::group_hash_axioms;
use crate::index::{consistent_but_at, id_free_at, indexed};
use crate::index_lemmas::{lemma_consistent_but_at_rekeyed, lemma_consistent_but_at_rewrite};
use crate::item::{HeapItem, Id, Key};
use crate::order::{heap_ordered, released};
use crate::order_lemmas::{lemma_sift_down_permutes, lemma_sift_up_permutes};
use crate::view_mut::HeapViewMut;

verus! {

/// A handle on the item at `view.index`. It remembers the key and the id that the item
/// had when the handle was made. While the handle lives, the item may hold any value, so
/// the heap's order and index may be broken at this one position; `release` mends both.
///
/// A handle that is dropped without `release` leaves the heap as the last write left it.
pub struct HeapItemRefMut<'a, T: HeapItem> {
    pub view: HeapViewMut<'a, T>,
    pub original_key: Key,
    pub original_id: Id,
}

impl<'a, T: HeapItem> HeapItemRefMut<'a, T> {
    /// The heap is in order and exactly indexed as far as the other items are concerned,
    /// and would be so at the handle's position too if the item still had its original
    /// key and id. This holds of a fresh handle, whatever is later written through it.
    pub open spec fn inv(&self) -> bool {
        consistent_but_at(
            self.view.items(),
            self.view.positions(),
            self.view.index as int,
            self.original_key,
            self.original_id,
        )
    }

    /// No other item of the heap carries the id that the item has now.
    pub open spec fn id_is_free(&self) -> bool {
        id_free_at(self.view.items(), self.view.index as int)
    }

    /// Tests whether no other item of the heap carries the id that the item has now:
    /// the id is then either the original one or one that the index does not hold.
    pub fn has_free_id(&self) -> (b: bool)
        requires
            self.inv(),
        ensures
            b == self.id_is_free(),
    {
        broadcast use group_hash_axioms;

        let id = self.view.heap[self.view.index].id();
        id == self.original_id || !self.view.index_map.contains_key(&id)
    }

    /// The item as it stands.
    pub fn value(&self) -> (r: &T)
        requires
            self.view.index < self.view.items().len(),
        ensures
            *r == self.view.items()[self.view.index as int],
    {
        &self.view.heap[self.view.index]
    }

    /// The item, to be rewritten in any way: key, id and all.
    pub fn value_mut(&mut self) -> (r: &mut T)
        requires
            old(self).view.index < old(self).view.items().len(),
        ensures
            *r == old(self).view.items()[old(self).view.index as int],
            final(self).view.items() == old(self).view.items().update(
                old(self).view.index as int,
                *final(r),
            ),
            final(self).view.positions() == old(self).view.positions(),
            final(self).view.index == old(self).view.index,
            final(self).original_key == old(self).original_key,
            final(self).original_id == old(self).original_id,
            old(self).inv() ==> final(self).inv(),
            *final(final(self).view.heap) == *final(old(self).view.heap),
            *final(final(self).view.index_map) == *final(old(self).view.index_map),
    {
        let index: usize = self.view.index;
        proof {
            let s = self.view.items();
            let m = self.view.positions();
            if self.inv() {
                assert forall|item: T|
                    consistent_but_at(
                        #[trigger] s.update(index as int, item),
                        m,
                        index as int,
                        self.original_key,
                        self.original_id,
                    ) by {
                    lemma_consistent_but_at_rewrite(
                        s,
                        m,
                        index as int,
                        self.original_key,
                        self.original_id,
                        item,
                    );
                }
            }
        }
        &mut self.view.heap[index]
    }

    /// Ends the handle: the index forgets the original id and learns the current one,
    /// then the item sinks if its key went down and rises if its key went up. What the
    /// handle's array and index hold in the end is what the heap holds from then on.
    pub fn release(self)
        requires
            self.inv(),
            self.id_is_free(),
        ensures
            final(self.view.heap)@ == released(
                self.view.items(),
                self.view.index as int,
                self.original_key,
            ),
            final(self.view.heap)@.len() == self.view.items().len(),
            final(self.view.heap)@.to_multiset() == self.view.items().to_multiset(),
            heap_ordered(final(self.view.heap)@),
            indexed(final(self.view.heap)@, final(self.view.index_map)@),
    {
        broadcast use group_hash_axioms;

        let mut this = self;
        let new_id = this.view.heap[this.view.index].id();
        let new_key = this.view.heap[this.view.index].key();
        this.view.index_map.remove(&this.original_id);
        this.view.index_map.insert(new_id, this.view.index);
        proof {
            let s = this.view.items();
            let j = this.view.index as int;
            lemma_consistent_but_at_rekeyed(
                s,
                self.view.positions(),
                j,
                self.original_key,
                self.original_id,
            );
            lemma_sift_down_permutes(s, j);
            lemma_sift_up_permutes(s, j);
        }
        if this.original_key > new_key {
            this.view.sift_down();
        } else if this.original_key < new_key {
            this.view.sift_up();
        }
    }
}

} // verus!
