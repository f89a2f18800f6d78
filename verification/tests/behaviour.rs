use indexed_heap::{Heap, HeapError, HeapItem, Id, Key};

#[derive(Clone, Debug, PartialEq)]
struct Task {
    priority: i64,
    id: i64,
    note: String,
}

impl HeapItem for Task {
    fn spec_key(&self) -> Key {
        self.priority
    }

    fn spec_id(&self) -> Id {
        self.id
    }

    fn key(&self) -> Key {
        self.priority
    }

    fn id(&self) -> Id {
        self.id
    }
}

fn task(priority: i64, id: i64) -> Task {
    Task { priority, id, note: format!("task {id}") }
}

fn layout<T: HeapItem>(heap: &Heap<T>) -> Vec<T> {
    heap.get_view().heap.clone()
}

fn drain<T: HeapItem>(heap: &mut Heap<T>) -> Vec<T> {
    let mut out = vec![];
    while let Some(item) = heap.pop() {
        assert!(heap.is_well_formed());
        out.push(item);
    }
    out
}

#[test]
fn heapify_keeps_a_heap_as_it_is() {
    let heap = Heap::heapify(vec![9, 8, 7, 6, 5, 4, 3, 2, 1]);
    assert!(heap.is_well_formed());
    assert_eq!(layout(&heap), vec![9, 8, 7, 6, 5, 4, 3, 2, 1]);
}

#[test]
fn heapify_sinks_bottom_up() {
    let heap = Heap::heapify(vec![1, 5, 3]);
    assert_eq!(layout(&heap), vec![5, 1, 3]);
    let heap = Heap::heapify(vec![1, 2, 3, 4, 5, 6, 7, 8, 9]);
    assert!(heap.is_well_formed());
    assert_eq!(layout(&heap), vec![9, 8, 7, 4, 5, 6, 3, 2, 1]);
}

#[test]
fn heapify_of_nothing_is_an_empty_valid_heap() {
    let heap: Heap<i64> = Heap::heapify(vec![]);
    assert!(heap.is_empty());
    assert_eq!(heap.len(), 0);
    assert!(heap.is_well_formed());
    assert!(heap.get_view().index_map.is_empty());
}

#[test]
fn pop_order_of_a_descending_run() {
    let mut heap = Heap::heapify(vec![9, 8, 7, 6, 5, 4, 3, 2, 1]);
    assert_eq!(drain(&mut heap), vec![9, 8, 7, 6, 5, 4, 3, 2, 1]);
    assert!(heap.is_empty());
}

#[test]
fn pop_order_never_goes_up() {
    let mut heap = Heap::heapify(vec![
        task(3, 1),
        task(7, 2),
        task(3, 3),
        task(-2, 4),
        task(7, 5),
        task(0, 6),
        task(11, 7),
    ]);
    assert!(heap.is_well_formed());
    let keys: Vec<i64> = drain(&mut heap).iter().map(|t| t.priority).collect();
    assert_eq!(keys, vec![11, 7, 7, 3, 3, 0, -2]);
}

#[test]
fn pop_moves_the_last_item_to_the_root_and_sinks_it() {
    let mut heap = Heap::heapify(vec![9, 8, 7, 6, 5, 4, 3, 2, 1]);
    assert_eq!(heap.pop(), Some(9));
    assert_eq!(layout(&heap), vec![8, 6, 7, 2, 5, 4, 3, 1]);
    assert_eq!(heap.len(), 8);
    assert_eq!(heap.get(9), None);
    assert!(heap.is_well_formed());
}

#[test]
fn push_appends_and_rises() {
    let mut heap = Heap::heapify(vec![9, 5, 7, 1]);
    assert_eq!(heap.push(8), Ok(()));
    assert_eq!(layout(&heap), vec![9, 8, 7, 1, 5]);
    assert_eq!(heap.push(10), Ok(()));
    assert_eq!(layout(&heap), vec![10, 8, 9, 1, 5, 7]);
    assert!(heap.is_well_formed());
}

#[test]
fn push_refuses_an_id_that_is_taken() {
    let mut heap = Heap::heapify(vec![task(1, 1), task(2, 2), task(3, 3)]);
    let before = layout(&heap);
    assert_eq!(heap.push(task(50, 2)), Err(HeapError::DuplicateId));
    assert_eq!(heap.len(), 3);
    assert_eq!(layout(&heap), before);
    assert!(heap.is_well_formed());
    assert_eq!(heap.get(2), Some(&task(2, 2)));
}

#[test]
fn a_tie_between_children_goes_to_the_right_child() {
    let heap = Heap::heapify(vec![task(1, 1), task(5, 2), task(5, 3)]);
    assert_eq!(layout(&heap), vec![task(5, 3), task(5, 2), task(1, 1)]);

    let mut heap = Heap::heapify(vec![task(9, 1), task(5, 2), task(5, 3), task(0, 4)]);
    assert_eq!(heap.pop(), Some(task(9, 1)));
    assert_eq!(layout(&heap), vec![task(5, 3), task(5, 2), task(0, 4)]);
}

#[test]
fn the_larger_child_wins_whichever_side_it_is_on() {
    let mut heap = Heap::heapify(vec![3, 2, 1]);
    let mut view = heap.get_mut_view();
    view.transpose(2);
    assert_eq!(view.index, 2);
    let mut view = heap.get_mut_view();
    view.sift_down();
    assert_eq!(view.index, 2);
    assert_eq!(layout(&heap), vec![3, 2, 1]);

    let mut heap = Heap::heapify(vec![3, 1, 2]);
    let mut view = heap.get_mut_view_at(0);
    view.transpose(1);
    let mut view = heap.get_mut_view();
    view.sift_down();
    assert_eq!(view.index, 1);
    assert_eq!(layout(&heap), vec![3, 1, 2]);
}

#[test]
fn a_lone_item_comes_back_as_it_went_in() {
    let mut heap: Heap<Task> = Heap::heapify(vec![]);
    assert!(heap.is_empty());
    let item = Task { priority: 4, id: 17, note: "only one".to_string() };
    assert_eq!(heap.push(item.clone()), Ok(()));
    assert!(!heap.is_empty());
    assert_eq!(heap.pop(), Some(item));
    assert!(heap.is_empty());
    assert!(heap.is_well_formed());
}

#[test]
fn nothing_comes_out_of_an_empty_heap() {
    let mut heap: Heap<i32> = Heap::heapify(vec![]);
    assert_eq!(heap.pop(), None);
    assert!(heap.is_empty());
    assert!(heap.is_well_formed());
}

#[test]
fn an_id_never_inserted_is_not_found() {
    let mut heap = Heap::heapify(vec![4, 8, 15, 16, 23, 42]);
    assert_eq!(heap.get(7), None);
    assert!(heap.get_mut(7).is_none());
    assert_eq!(heap.len(), 6);
    assert!(heap.is_well_formed());
    let mut empty: Heap<i32> = Heap::heapify(vec![]);
    assert_eq!(empty.get(0), None);
    assert!(empty.get_mut(0).is_none());
}

#[test]
fn get_finds_each_item_by_its_id() {
    let heap = Heap::heapify(vec![task(1, 10), task(2, 20), task(3, 30)]);
    assert_eq!(heap.get(10), Some(&task(1, 10)));
    assert_eq!(heap.get(20), Some(&task(2, 20)));
    assert_eq!(heap.get(30), Some(&task(3, 30)));
    assert_eq!(heap.get(1), None);
}

#[test]
fn a_key_that_went_up_rises() {
    let mut heap = Heap::heapify(vec![0, 100, 9, 41, -10, 55]);
    assert_eq!(layout(&heap), vec![100, 41, 55, 0, -10, 9]);
    let mut handle = heap.get_mut(-10).unwrap();
    assert_eq!(handle.original_key, -10);
    assert_eq!(handle.original_id, -10);
    assert_eq!(handle.view.index, 4);
    assert_eq!(handle.value(), &-10);
    *handle.value_mut() = 200;
    assert_eq!(handle.value(), &200);
    handle.release();
    assert_eq!(layout(&heap), vec![200, 100, 55, 0, 41, 9]);
    assert!(heap.is_well_formed());
    assert_eq!(heap.get(-10), None);
    assert_eq!(heap.get(200), Some(&200));
}

#[test]
fn a_key_that_went_down_sinks() {
    let mut heap = Heap::heapify(vec![30, 20, 10, 5]);
    let mut handle = heap.get_mut(30).unwrap();
    *handle.value_mut() = 1;
    handle.release();
    assert_eq!(layout(&heap), vec![20, 5, 10, 1]);
    assert!(heap.is_well_formed());
    assert_eq!(heap.get(30), None);
    assert_eq!(heap.get(1), Some(&1));
}

#[test]
fn an_equal_key_stays_and_the_id_is_rekeyed() {
    let mut heap = Heap::heapify(vec![task(3, 1), task(2, 2), task(1, 3)]);
    let mut handle = heap.get_mut(2).unwrap();
    *handle.value_mut() = Task { priority: 2, id: 77, note: "renamed".to_string() };
    handle.release();
    assert!(heap.is_well_formed());
    assert_eq!(layout(&heap)[1].id, 77);
    assert_eq!(heap.get(2), None);
    assert_eq!(heap.get(77).map(|t| t.note.as_str()), Some("renamed"));
    assert_eq!(heap.get_view().index_map.get(&77), Some(&1));
    assert_eq!(heap.get_view().index_map.len(), 3);
}

#[test]
fn a_handle_released_untouched_changes_nothing() {
    let mut heap = Heap::heapify(vec![0, 100, 9, 41, -10, 55]);
    let before = layout(&heap);
    let handle = heap.get_mut(41).unwrap();
    handle.release();
    assert_eq!(layout(&heap), before);
    assert!(heap.is_well_formed());
}

#[test]
fn read_only_navigation_follows_the_array_layout() {
    let heap = Heap::heapify(vec![9, 8, 7, 6, 5, 4, 3, 2, 1]);
    let view = heap.get_view_at(3);
    assert_eq!(view.index, 3);
    assert_eq!(view.value(), &6);
    assert_eq!(view.parent().unwrap().index, 1);
    assert_eq!(view.left().unwrap().index, 7);
    assert_eq!(view.right().unwrap().index, 8);
    assert_eq!(heap.get_view_at(2).parent().unwrap().index, 0);
    assert_eq!(heap.get_view_at(1).parent().unwrap().index, 0);
    assert_eq!(heap.get_view_at(8).parent().unwrap().value(), &6);
    assert_eq!(heap.get_view().parent(), None);
    assert_eq!(heap.get_view_at(4).left(), None);
    assert_eq!(heap.get_view_at(3).right().unwrap().right(), None);
    assert_eq!(view.checked_from_index(8).unwrap().value(), &1);
    assert_eq!(view.checked_from_index(9), None);
    assert_eq!(heap.get_view_at(usize::MAX).left(), None);
    assert_eq!(heap.get_view_at(usize::MAX).right(), None);
    assert_eq!(heap.get_view_at(usize::MAX / 2).right(), None);
}

#[test]
fn mutating_navigation_follows_the_array_layout() {
    let mut heap = Heap::heapify(vec![9, 8, 7, 6, 5, 4, 3, 2, 1]);
    let view = heap.get_mut_view_at(3);
    assert_eq!(view.parent(), Some(1));
    assert_eq!(view.left_index(), Some(7));
    assert_eq!(view.right_index(), Some(8));
    let view = heap.get_mut_view();
    assert_eq!(view.parent(), None);
    assert_eq!(view.left_index(), Some(1));
    assert_eq!(view.right_index(), Some(2));
    let view = heap.get_mut_view_at(4);
    assert_eq!(view.parent(), Some(1));
    assert_eq!(view.left_index(), None);
    assert_eq!(view.right_index(), None);
    let view = heap.get_mut_view_at(2);
    assert_eq!(view.parent(), Some(0));
    let view = heap.get_mut_view_at(usize::MAX);
    assert_eq!(view.left_index(), None);
    assert_eq!(view.right_index(), None);
}

#[test]
fn transpose_exchanges_two_items_and_their_index_entries() {
    let mut heap = Heap::heapify(vec![9, 8, 7, 6, 5, 4, 3, 2, 1]);
    let mut view = heap.get_mut_view_at(1);
    view.transpose(6);
    assert_eq!(view.index, 6);
    assert_eq!(layout(&heap), vec![9, 3, 7, 6, 5, 4, 8, 2, 1]);
    let view = heap.get_view();
    assert_eq!(view.index_map.get(&8), Some(&6));
    assert_eq!(view.index_map.get(&3), Some(&1));
    assert_eq!(view.index_map.get(&9), Some(&0));
    assert_eq!(view.index_map.len(), 9);
    assert!(!heap.is_well_formed());
    assert_eq!(heap.get(8), Some(&8));
}

#[test]
fn sift_up_stops_below_a_parent_of_equal_key() {
    let mut heap = Heap::heapify(vec![task(5, 1), task(5, 2), task(1, 3)]);
    let mut view = heap.get_mut_view_at(1);
    view.sift_up();
    assert_eq!(view.index, 1);
    assert_eq!(layout(&heap), vec![task(5, 1), task(5, 2), task(1, 3)]);
}

#[test]
fn sift_up_carries_an_item_to_the_root() {
    let mut heap = Heap::heapify(vec![9, 8, 7, 6, 5, 4, 3, 2, 1]);
    let mut view = heap.get_mut_view_at(8);
    view.transpose(0);
    let mut view = heap.get_mut_view_at(8);
    view.sift_up();
    assert_eq!(view.index, 0);
    assert_eq!(layout(&heap), vec![9, 1, 7, 8, 5, 4, 3, 2, 6]);
}

#[test]
fn is_well_formed_tells_a_broken_order_from_a_sound_one() {
    let mut heap = Heap::heapify(vec![3, 2, 1]);
    assert!(heap.is_well_formed());
    let mut view = heap.get_mut_view();
    view.transpose(2);
    assert!(!heap.is_well_formed());
    let mut view = heap.get_mut_view();
    view.sift_down();
    assert!(heap.is_well_formed());
}

#[test]
fn is_well_formed_tells_a_stale_index_from_an_exact_one() {
    let mut heap = Heap::heapify(vec![task(3, 1), task(2, 2), task(1, 3)]);
    let mut handle = heap.get_mut(3).unwrap();
    handle.value_mut().id = 9;
    drop(handle);
    assert!(!heap.is_well_formed());
    let heap = Heap::heapify(vec![task(3, 1), task(2, 1)]);
    assert!(!heap.is_well_formed());
}

#[test]
fn numbers_are_their_own_key_and_id() {
    assert_eq!(HeapItem::key(&-7i64), -7);
    assert_eq!(HeapItem::id(&-7i64), -7);
    assert_eq!(HeapItem::key(&-7i32), -7);
    assert_eq!(HeapItem::id(&i32::MIN), -2147483648);
    assert_eq!(HeapItem::key(&-300i16), -300);
    assert_eq!(HeapItem::id(&i16::MAX), 32767);
    assert_eq!(HeapItem::key(&-128i8), -128);
    assert_eq!(HeapItem::id(&127i8), 127);
    assert_eq!(HeapItem::key(&u32::MAX), 4294967295);
    assert_eq!(HeapItem::id(&7u32), 7);
    assert_eq!(HeapItem::key(&u16::MAX), 65535);
    assert_eq!(HeapItem::id(&7u16), 7);
    assert_eq!(HeapItem::key(&255u8), 255);
    assert_eq!(HeapItem::id(&0u8), 0);
}

#[test]
fn heaps_of_other_number_types_sort_too() {
    let mut heap = Heap::heapify(vec![3u8, 250, 17, 0]);
    assert_eq!(drain(&mut heap), vec![250u8, 17, 3, 0]);
    let mut heap = Heap::heapify(vec![i64::MIN, 0, i64::MAX, -1]);
    assert_eq!(drain(&mut heap), vec![i64::MAX, 0, -1, i64::MIN]);
}

#[test]
fn has_free_id_tells_a_taken_id_from_a_free_one() {
    let mut heap = Heap::heapify(vec![task(3, 1), task(2, 2), task(1, 3)]);
    let mut handle = heap.get_mut(2).unwrap();
    assert!(handle.has_free_id());
    handle.value_mut().id = 3;
    assert!(!handle.has_free_id());
    handle.value_mut().id = 40;
    assert!(handle.has_free_id());
    handle.value_mut().id = 2;
    assert!(handle.has_free_id());
    handle.release();
    assert!(heap.is_well_formed());
    assert_eq!(heap.get(2), Some(&task(2, 2)));
}

#[test]
fn heapify_with_a_double_id_is_in_order_but_not_indexed() {
    let mut heap = Heap::heapify(vec![task(1, 7), task(9, 7), task(4, 8)]);
    assert!(!heap.is_well_formed());
    assert_eq!(heap.len(), 3);
    let keys: Vec<i64> = layout(&heap).iter().map(|t| t.priority).collect();
    assert_eq!(keys, vec![9, 1, 4]);
    let view = heap.get_mut_view();
    assert_eq!(view.index_map.len(), 2);
}

#[test]
fn a_new_heap_is_empty_and_valid() {
    let mut heap: Heap<i64> = Heap::new();
    assert!(heap.is_empty());
    assert_eq!(heap.len(), 0);
    assert!(heap.is_well_formed());
    assert_eq!(heap.pop(), None);
    assert_eq!(heap.push(5), Ok(()));
    assert_eq!(heap.push(9), Ok(()));
    assert_eq!(layout(&heap), vec![9, 5]);
}
