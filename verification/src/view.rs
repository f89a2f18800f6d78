//! The read-only navigator: a position in the heap's array, from which the parent, the
//! children and the item itself can be reached.

use vstd::prelude::*;
use std::collections::HashMap;
use crate::item::{HeapItem, Id};
use crate::order::{left_of, parent_of, right_of};

verus! {

/// A position in a heap's array, together with the array and its index.
#[derive(PartialEq, Debug)]
pub struct HeapView<'a, T: HeapItem> {
    pub index: usize,
    pub heap: &'a Vec<T>,
    pub index_map: &'a HashMap<Id, usize>,
}

impl<'a, T: HeapItem> HeapView<'a, T> {
    /// The same navigator, looking at position `index`.
    pub open spec fn at(self, index: usize) -> Self {
        HeapView { index, heap: self.heap, index_map: self.index_map }
    }

    /// The navigator of the parent position; nothing at the root.
    pub fn parent(&self) -> (r: Option<Self>)
        ensures
            match r {
                Some(v) => self.index > 0 && v.index == parent_of(self.index as int) && v
                    == self.at(v.index),
                None => self.index == 0,
            },
    {
        if self.index == 0 {
            None
        } else {
            Some(
                HeapView {
                    index: (self.index - 1) / 2,
                    heap: self.heap,
                    index_map: self.index_map,
                },
            )
        }
    }

    /// The navigator of the left child; nothing where the array ends before it.
    pub fn left(&self) -> (r: Option<Self>)
        ensures
            match r {
                Some(v) => v.index == left_of(self.index as int) && v.index < self.heap@.len()
                    && v == self.at(v.index),
                None => left_of(self.index as int) >= self.heap@.len(),
            },
    {
        if self.index > (usize::MAX - 1) / 2 {
            assert(self.heap.len() <= usize::MAX);
            None
        } else {
            self.checked_from_index(2 * self.index + 1)
        }
    }

    /// The navigator of the right child; nothing where the array ends before it.
    pub fn right(&self) -> (r: Option<Self>)
        ensures
            match r {
                Some(v) => v.index == right_of(self.index as int) && v.index < self.heap@.len()
                    && v == self.at(v.index),
                None => right_of(self.index as int) >= self.heap@.len(),
            },
    {
        if self.index > (usize::MAX - 2) / 2 {
            assert(self.heap.len() <= usize::MAX);
            None
        } else {
            self.checked_from_index(2 * self.index + 2)
        }
    }

    /// The navigator of position `index`; nothing where `index` lies outside the array.
    pub fn checked_from_index(&self, index: usize) -> (r: Option<Self>)
        ensures
            r == if index < self.heap@.len() {
                Some(self.at(index))
            } else {
                None
            },
    {
        if index >= self.heap.len() {
            None
        } else {
            Some(HeapView { index, heap: self.heap, index_map: self.index_map })
        }
    }

    /// The item at this position.
    pub fn value(&self) -> (r: &T)
        requires
            self.index < self.heap@.len(),
        ensures
            *r == self.heap@[self.index as int],
    {
        &self.heap[self.index]
    }
}

} // verus!
