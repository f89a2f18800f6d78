//! What an element must offer to live in the heap: a priority and an identity.

use vstd::prelude::*;
use std::fmt::Debug;

verus! {

/// The priority by which items are ordered; the largest key sits at the root.
pub type Key = i64;

/// The identity by which an item is found again; unique among the items of one heap.
pub type Id = i64;

/// An element of the heap. Both accessors are functions of the item's current value, so
/// rewriting an item may change its key, its id, or both.
///
/// What is proved of a heap is proved for item types whose `key` and `id` return what
/// `spec_key` and `spec_id` say; an implementation outside verified code has to see to
/// that itself.
pub trait HeapItem: Debug + Clone {
    /// The key of this item, as contracts speak of it.
    spec fn spec_key(&self) -> Key;

    /// The id of this item, as contracts speak of it.
    spec fn spec_id(&self) -> Id;

    /// The key of this item: its rank among the items of a heap.
    fn key(&self) -> (k: Key)
        ensures
            k == self.spec_key(),
    ;

    /// The id of this item: what it is found by.
    fn id(&self) -> (i: Id)
        ensures
            i == self.spec_id(),
    ;
}

/// A plain number is its own key and its own id.
impl HeapItem for i64 {
    open spec fn spec_key(&self) -> Key {
        *self
    }

    open spec fn spec_id(&self) -> Id {
        *self
    }

    fn key(&self) -> (k: Key) {
        *self
    }

    fn id(&self) -> (i: Id) {
        *self
    }
}

/// A plain number is its own key and its own id.
impl HeapItem for i32 {
    open spec fn spec_key(&self) -> Key {
        *self as i64
    }

    open spec fn spec_id(&self) -> Id {
        *self as i64
    }

    fn key(&self) -> (k: Key) {
        *self as i64
    }

    fn id(&self) -> (i: Id) {
        *self as i64
    }
}

/// A plain number is its own key and its own id.
impl HeapItem for i16 {
    open spec fn spec_key(&self) -> Key {
        *self as i64
    }

    open spec fn spec_id(&self) -> Id {
        *self as i64
    }

    fn key(&self) -> (k: Key) {
        *self as i64
    }

    fn id(&self) -> (i: Id) {
        *self as i64
    }
}

/// A plain number is its own key and its own id.
impl HeapItem for i8 {
    open spec fn spec_key(&self) -> Key {
        *self as i64
    }

    open spec fn spec_id(&self) -> Id {
        *self as i64
    }

    fn key(&self) -> (k: Key) {
        *self as i64
    }

    fn id(&self) -> (i: Id) {
        *self as i64
    }
}

/// A plain number is its own key and its own id.
impl HeapItem for u32 {
    open spec fn spec_key(&self) -> Key {
        *self as i64
    }

    open spec fn spec_id(&self) -> Id {
        *self as i64
    }

    fn key(&self) -> (k: Key) {
        *self as i64
    }

    fn id(&self) -> (i: Id) {
        *self as i64
    }
}

/// A plain number is its own key and its own id.
impl HeapItem for u16 {
    open spec fn spec_key(&self) -> Key {
        *self as i64
    }

    open spec fn spec_id(&self) -> Id {
        *self as i64
    }

    fn key(&self) -> (k: Key) {
        *self as i64
    }

    fn id(&self) -> (i: Id) {
        *self as i64
    }
}

/// A plain number is its own key and its own id.
impl HeapItem for u8 {
    open spec fn spec_key(&self) -> Key {
        *self as i64
    }

    open spec fn spec_id(&self) -> Id {
        *self as i64
    }

    fn key(&self) -> (k: Key) {
        *self as i64
    }

    fn id(&self) -> (i: Id) {
        *self as i64
    }
}

} // verus!
