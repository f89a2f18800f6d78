//! An indexed binary max-heap: a priority queue whose items can be found by id and
//! rewritten in place, with the heap order restored afterwards.
//!
//! A [`Heap`] owns an array of items in heap order and an index from each item's id to
//! its position. Its view is the array; [`Heap::wf`] says that the array is in heap order
//! and that the index is exact. `heapify`, `push` and `pop` keep both.
//!
//! An item is reached by id with [`Heap::get`], and borrowed for rewriting with
//! [`Heap::get_mut`]. The handle lets the caller change the item in any way, its key and
//! its id included; [`HeapItemRefMut::release`] then re-keys the index and lets the item
//! sink or rise to its place.
//!
//! [`HeapView`] and [`HeapViewMut`] walk the array as a tree; the second also carries out
//! the structural steps on which everything else is built.
//!
//! The modules `order` and `index` hold the model over which the contracts are stated,
//! `order_lemmas` and `index_lemmas` what is proved of it, and `laws` what holds across
//! several operations.

pub mod heap;
pub mod index;
pub mod index_lemmas;
pub mod item;
pub mod item_ref;
pub mod laws;
pub mod order;
pub mod order_lemmas;
pub mod view;
pub mod view_mut;

pub use heap::{Heap, HeapError};
pub use item::{HeapItem, Id, Key};
pub use item_ref::HeapItemRefMut;
pub use view::HeapView;
pub use view_mut::HeapViewMut;
