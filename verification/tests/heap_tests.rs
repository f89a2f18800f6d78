use indexed_heap::{Heap, HeapItem, Id, Key};

fn check_invariants<T: HeapItem>(heap: &Heap<T>) {
    for i in 0..heap.len() {
        let view = heap.get_view_at(i);
        if let Some(left) = view.left() {
            assert!(left.value().key() <= view.value().key());
        }
        if let Some(right) = view.right() {
            assert!(right.value().key() <= view.value().key());
        }
    }
    let view = heap.get_view();
    for (id, index) in view.index_map.iter() {
        assert_eq!(view.heap[*index].id(), *id);
    }
    assert_eq!(view.index_map.len(), heap.len());
    for i in 0..heap.len() {
        assert_eq!(view.index_map.get(&view.heap[i].id()), Some(&i));
    }
    assert!(heap.is_well_formed());
}

#[test]
fn test_heapify() {
    let heap = Heap::heapify(vec![9, 8, 7, 6, 5, 4, 3, 2, 1]);
    check_invariants(&heap);
}

#[test]
fn test_value() {
    let heap = Heap::heapify(vec![9, 8, 7, 6, 5, 4, 3, 2, 1]);
    check_invariants(&heap);
    let view = heap.get_view();
    assert_eq!(view.value(), &9);
}

#[test]
fn left_works() {
    let heap = Heap::heapify(vec![9, 8, 7, 6, 5, 4, 3, 2, 1]);
    let view = heap.get_view();
    assert_eq!(view.left().unwrap().value(), &8);
    assert_eq!(view.left().unwrap().left().unwrap().value(), &6);
    assert_eq!(view.left().unwrap().left().unwrap().left().unwrap().value(), &2);
    assert_eq!(view.left().unwrap().left().unwrap().left().unwrap().left(), None);
}

#[test]
fn right_works() {
    let heap = Heap::heapify(vec![9, 8, 7, 6, 5, 4, 3, 2, 1]);
    let view = heap.get_view();
    assert_eq!(view.right().unwrap().value(), &7);
    assert_eq!(view.right().unwrap().right().unwrap().value(), &3);
    assert_eq!(view.right().unwrap().right().unwrap().right(), None);
}

#[test]
fn left_and_right_navigation() {
    let heap = Heap::heapify(vec![9, 8, 7, 6, 5, 4, 3, 2, 1]);
    let view = heap.get_view();
    assert_eq!(view.left().unwrap().left().unwrap().right().unwrap().value(), &1);
}

#[test]
fn sift_up() {
    let mut heap = Heap::heapify(vec![1, 2, 3, 4, 5, 6, 7, 8, 9]);
    let mut view = heap.get_mut_view();
    view.sift_up();
    check_invariants(&heap);
}

#[test]
fn pushes() {
    let mut heap = Heap::heapify(vec![]);
    assert_eq!(heap.push(10), Ok(()));
    check_invariants(&heap);
    assert_eq!(heap.push(1), Ok(()));
    check_invariants(&heap);
    assert_eq!(heap.push(-100), Ok(()));
    check_invariants(&heap);
    assert_eq!(heap.push(100), Ok(()));
    check_invariants(&heap);
    assert_eq!(heap.push(12), Ok(()));
    check_invariants(&heap);
    assert_eq!(heap.push(45), Ok(()));
    check_invariants(&heap);
    assert_eq!(heap.len(), 6);
    assert_eq!(heap.get_view().value(), &100);
}

#[test]
fn pops() {
    let mut heap = Heap::heapify(vec![1, 2, 3, 4, 5, 6, 7, 8, 9]);
    check_invariants(&heap);
    while let Some(_) = heap.pop() {
        check_invariants(&heap);
    }
}

#[test]
fn heap_sort() {
    let nums = vec![0, 100, 9, 41, -10, 55];
    let mut expected = nums.clone();
    expected.sort();
    expected.reverse();
    let mut heap = Heap::heapify(vec![]);
    for num in nums {
        assert_eq!(heap.push(num), Ok(()));
        check_invariants(&heap);
    }
    let mut result = vec![];
    while let Some(num) = heap.pop() {
        result.push(num);
        check_invariants(&heap);
    }
    assert_eq!(expected, result);
    assert_eq!(result, vec![100, 55, 41, 9, 0, -10]);
}

#[test]
fn test_invariants_restored() {
    let mut heap = Heap::heapify(vec![0, 100, 9, 41, -10, 55]);
    println!("before first modification");
    let mut handle = heap.get_mut(-10).unwrap();
    *handle.value_mut() = 200;
    handle.release();
    check_invariants(&heap);
    assert_eq!(heap.get_view().value(), &200);
    println!("before second modification");
    let mut handle = heap.get_mut(200).unwrap();
    *handle.value_mut() = 300;
    handle.release();
    println!("after all modifications, before read");
    assert_eq!(*heap.get_view().value(), 300);
    println!("after read");
    check_invariants(&heap);
}

#[derive(Clone, Debug)]
struct Job {
    priority: i64,
    id: i64,
    description: String,
}

impl HeapItem for Job {
    fn spec_key(&self) -> Key {
        self.priority
    }

    fn spec_id(&self) -> Id {
        self.id
    }

    fn key(&self) -> Key {
        self.priority
    }

    fn id(&self) -> Id {
        self.id
    }
}

#[test]
fn test_invariants_restored_automatically() {
    let mut job_queue = Heap::heapify(vec![
        Job { id: 1, priority: 100, description: "Very urgent!".to_string() },
        Job { id: 2, priority: 50, description: "Medium urgent!".to_string() },
        Job { id: 3, priority: 0, description: "Meh, whenever".to_string() },
    ]);
    job_queue.pop().unwrap();
    println!("before modification");
    let mut handle = job_queue.get_mut(3).unwrap();
    *handle.value_mut() = Job {
        id: 3,
        priority: 200,
        description: "The boss wants this yesterday!".to_string(),
    };
    handle.release();
    println!("after modifications, before read");
    assert_eq!(&job_queue.pop().unwrap().description, "The boss wants this yesterday!");
    println!("after read");
    check_invariants(&job_queue);
}
