//! The container: an array in heap order and the index from ids to positions.

use vstd::prelude::*;
use vstd::std_specs::hash::group_hash_axioms;
use std::collections::HashMap;
use crate::index::{
    entered, has_id, heapified_index, heapified_index_from, ids_unique, indexed,
};
use crate::index_lemmas::{
    lemma_consistent_at_item, lemma_heapified_indexed, lemma_indexed_by_count,
    lemma_indexed_len, lemma_indexed_popped, lemma_indexed_pushed, lemma_indexed_unique,
};
use crate::item::{HeapItem, Id};
use crate::item_ref::HeapItemRefMut;
use crate::order::{heap_ordered, heapified, heapified_from, ordered_at, popped, pushed};
use crate::order_lemmas::{lemma_heapified, lemma_popped, lemma_pushed};
use crate::view::HeapView;
use crate::view_mut::HeapViewMut;

verus! {

/// Why an item could not be added.
#[derive(Debug, Clone, Copy, PartialEq, Eq)]
pub enum HeapError {
    /// An item with the same id is already in the heap.
    DuplicateId,
}

/// A binary max-heap whose items can be found by id.
#[derive(Debug)]
pub struct Heap<T: HeapItem> {
    heap: Vec<T>,
    index_map: HashMap<Id, usize>,
}

impl<T: HeapItem> View for Heap<T> {
    type V = Seq<T>;

    /// The items in array order: the root first, the children of position `i` at
    /// `2 * i + 1` and `2 * i + 2`.
    closed spec fn view(&self) -> Seq<T> {
        self.heap@
    }
}

impl<T: HeapItem> Heap<T> {
    /// The index: for each id, the position of the item that carries it.
    pub closed spec fn positions(&self) -> Map<Id, usize> {
        self.index_map@
    }

    /// The heap is in order and its index is exact. Every operation of the container
    /// keeps this; only a navigator or an unreleased handle can break it.
    pub open spec fn wf(&self) -> bool {
        &&& heap_ordered(self@)
        &&& indexed(self@, self.positions())
    }

    /// An empty heap.
    pub fn new() -> (h: Self)
        ensures
            h@ == Seq::<T>::empty(),
            h.positions() == Map::<Id, usize>::empty(),
            h.wf(),
    {
        Heap { heap: Vec::new(), index_map: HashMap::new() }
    }

    /// Tests whether the heap is in order and its index is exact.
    pub fn is_well_formed(&self) -> (b: bool)
        ensures
            b == self.wf(),
    {
        broadcast use group_hash_axioms;

        let count = self.heap.len();
        if self.index_map.len() != count {
            proof {
                if indexed(self@, self.positions()) {
                    lemma_indexed_len(self@, self.positions());
                }
            }
            return false;
        }
        let mut i: usize = 0;
        while i < count
            invariant
                i <= count == self@.len(),
                forall|p: int|
                    #![trigger self@[p]]
                    0 <= p < i ==> self.positions().contains_key(self@[p].spec_id())
                        && self.positions()[self@[p].spec_id()] == p,
                forall|p: int| 0 < p < i ==> #[trigger] ordered_at(self@, p),
            decreases count - i,
        {
            let id = self.heap[i].id();
            match self.index_map.get(&id) {
                Some(position) => {
                    if *position != i {
                        return false;
                    }
                },
                None => {
                    return false;
                },
            }
            if i > 0 && self.heap[(i - 1) / 2].key() < self.heap[i].key() {
                assert(!ordered_at(self@, i as int));
                return false;
            }
            i += 1;
        }
        proof {
            lemma_indexed_by_count(self@, self.positions());
        }
        true
    }

    /// Builds a heap from the items in any order: every id is entered in the index,
    /// then every position that has a child sinks, the last such position first. The
    /// index is exact where no two items share an id.
    pub fn heapify(items: Vec<T>) -> (h: Self)
        ensures
            h@ == heapified(items@),
            h.positions() == heapified_index(items@),
            h@.len() == items@.len(),
            h@.to_multiset() == items@.to_multiset(),
            heap_ordered(h@),
            ids_unique(items@) ==> h.wf(),
    {
        broadcast use group_hash_axioms;

        let item_count = items.len();
        let mut index_map: HashMap<Id, usize> = HashMap::new();
        let mut i: usize = 0;
        while i < item_count
            invariant
                i <= item_count == items@.len(),
                index_map@ == entered(items@, i as int),
            decreases item_count - i,
        {
            let id = items[i].id();
            index_map.insert(id, i);
            i += 1;
        }
        let ghost given = items@;
        let mut result = Heap { heap: items, index_map };
        let mut ix: usize = item_count / 2;
        while ix > 0
            invariant
                ix <= item_count / 2,
                result@.len() == item_count,
                heapified_from(result@, ix as int) == heapified(given),
                heapified_index_from(result@, result.positions(), ix as int) == heapified_index(
                    given,
                ),
            decreases ix,
        {
            ix -= 1;
            let mut view = result.get_mut_view_at(ix);
            view.sift_down();
        }
        proof {
            lemma_heapified(given);
            if ids_unique(given) {
                lemma_heapified_indexed(given);
            }
        }
        result
    }

    /// The number of items.
    pub fn len(&self) -> (n: usize)
        ensures
            n == self@.len(),
    {
        self.heap.len()
    }

    /// Whether the heap holds no item.
    pub fn is_empty(&self) -> (b: bool)
        ensures
            b == (self@.len() == 0),
    {
        self.heap.is_empty()
    }

    /// Adds an item: it is appended and rises to its place. An item whose id is already
    /// in the heap is refused, and the heap stays as it was.
    pub fn push(&mut self, value: T) -> (r: Result<(), HeapError>)
        requires
            old(self).wf(),
        ensures
            final(self).wf(),
            has_id(old(self)@, value.spec_id()) ==> {
                &&& r == Err::<(), HeapError>(HeapError::DuplicateId)
                &&& final(self)@ == old(self)@
                &&& final(self).positions() == old(self).positions()
            },
            !has_id(old(self)@, value.spec_id()) ==> {
                &&& r == Ok::<(), HeapError>(())
                &&& final(self)@ == pushed(old(self)@, value)
                &&& final(self)@.len() == old(self)@.len() + 1
                &&& final(self)@.to_multiset() == old(self)@.to_multiset().insert(value)
            },
    {
        broadcast use group_hash_axioms;

        let id = value.id();
        proof {
            lemma_indexed_unique(self@, self.positions());
        }
        if self.index_map.contains_key(&id) {
            return Err(HeapError::DuplicateId);
        }
        let last: usize = self.heap.len();
        proof {
            lemma_indexed_pushed(self@, self.positions(), value);
            lemma_pushed(self@, value);
        }
        self.index_map.insert(id, last);
        self.heap.push(value);
        let mut view = self.get_mut_view_at(last);
        view.sift_up();
        Ok(())
    }

    /// Takes out the root, an item of the largest key; nothing where the heap is empty.
    /// The last item takes the root's place and sinks.
    pub fn pop(&mut self) -> (r: Option<T>)
        requires
            old(self).wf(),
        ensures
            final(self).wf(),
            final(self)@ == popped(old(self)@),
            match r {
                Some(top) => {
                    &&& old(self)@.len() > 0
                    &&& top == old(self)@[0]
                    &&& final(self)@.len() == old(self)@.len() - 1
                    &&& final(self)@.to_multiset().insert(top) == old(self)@.to_multiset()
                    &&& forall|i: int|
                        0 <= i < old(self)@.len() ==> (#[trigger] old(self)@[i]).spec_key()
                            <= top.spec_key()
                },
                None => {
                    &&& old(self)@.len() == 0
                    &&& final(self)@ == old(self)@
                    &&& final(self).positions() == old(self).positions()
                },
            },
    {
        broadcast use group_hash_axioms;

        if self.heap.is_empty() {
            None
        } else {
            proof {
                lemma_indexed_popped(self@, self.positions());
                lemma_popped(self@);
            }
            let last_index: usize = self.heap.len() - 1;
            let mut view = self.get_mut_view();
            view.transpose(last_index);
            let result = self.heap.pop();
            let top_id = result.as_ref().unwrap().id();
            self.index_map.remove(&top_id);
            assert(self@ =~= old(self)@.update(0, old(self)@.last()).drop_last());
            let mut view = self.get_mut_view();
            view.sift_down();
            result
        }
    }

    /// A navigator at the root.
    pub fn get_view(&self) -> (v: HeapView<'_, T>)
        ensures
            v.index == 0,
            v.heap@ == self@,
            v.index_map@ == self.positions(),
    {
        self.get_view_at(0)
    }

    /// A navigator at position `index`.
    pub fn get_view_at(&self, index: usize) -> (v: HeapView<'_, T>)
        ensures
            v.index == index,
            v.heap@ == self@,
            v.index_map@ == self.positions(),
    {
        HeapView { index, heap: &self.heap, index_map: &self.index_map }
    }

    /// A mutating navigator at the root. What it does to its array and index is done
    /// to the heap.
    pub fn get_mut_view(&mut self) -> (v: HeapViewMut<'_, T>)
        ensures
            v.index == 0,
            v.items() == old(self)@,
            v.positions() == old(self).positions(),
            final(self)@ == final(v.heap)@,
            final(self).positions() == final(v.index_map)@,
    {
        self.get_mut_view_at(0)
    }

    /// A mutating navigator at position `index`. What it does to its array and index
    /// is done to the heap.
    pub fn get_mut_view_at(&mut self, index: usize) -> (v: HeapViewMut<'_, T>)
        ensures
            v.index == index,
            v.items() == old(self)@,
            v.positions() == old(self).positions(),
            final(self)@ == final(v.heap)@,
            final(self).positions() == final(v.index_map)@,
    {
        HeapViewMut { index, heap: &mut self.heap, index_map: &mut self.index_map }
    }

    /// A handle on the item that carries `id`, through which the item can be rewritten;
    /// nothing where no item carries it. What the handle leaves behind is the heap.
    pub fn get_mut(&mut self, id: Id) -> (r: Option<HeapItemRefMut<'_, T>>)
        requires
            old(self).wf(),
        ensures
            match r {
                Some(handle) => {
                    &&& has_id(old(self)@, id)
                    &&& handle.view.items() == old(self)@
                    &&& handle.view.positions() == old(self).positions()
                    &&& handle.view.index == old(self).positions()[id]
                    &&& handle.original_id == id
                    &&& handle.original_key == old(self)@[handle.view.index as int].spec_key()
                    &&& old(self)@[handle.view.index as int].spec_id() == id
                    &&& handle.inv()
                    &&& final(self)@ == final(handle.view.heap)@
                    &&& final(self).positions() == final(handle.view.index_map)@
                },
                None => {
                    &&& !has_id(old(self)@, id)
                    &&& final(self)@ == old(self)@
                    &&& final(self).positions() == old(self).positions()
                },
            },
    {
        broadcast use group_hash_axioms;

        proof {
            lemma_indexed_unique(self@, self.positions());
        }
        let index: usize = match self.index_map.get(&id) {
            Some(index) => *index,
            None => {
                return None;
            },
        };
        let original_key = self.heap[index].key();
        let original_id = self.heap[index].id();
        proof {
            lemma_consistent_at_item(self@, self.positions(), index as int);
        }
        Some(HeapItemRefMut { view: self.get_mut_view_at(index), original_key, original_id })
    }

    /// The item that carries `id`; nothing where no item carries it.
    pub fn get(&self, id: Id) -> (r: Option<&T>)
        requires
            indexed(self@, self.positions()),
        ensures
            match r {
                Some(item) => {
                    &&& has_id(self@, id)
                    &&& item.spec_id() == id
                    &&& *item == self@[self.positions()[id] as int]
                },
                None => !has_id(self@, id),
            },
    {
        broadcast use group_hash_axioms;

        proof {
            lemma_indexed_unique(self@, self.positions());
        }
        match self.index_map.get(&id) {
            Some(index) => Some(&self.heap[*index]),
            None => None,
        }
    }
}

} // verus!
