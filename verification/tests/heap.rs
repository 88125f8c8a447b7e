use multipart_form::heap::{Block, Heap, NULL};
use multipart_form::record::{FormData, FormField};

#[test]
fn new_heap_is_empty() {
    let heap = Heap::new();
    assert!(heap.is_empty());
    assert!(!heap.is_live(NULL));
    assert!(!heap.is_live(1));
    assert_eq!(heap.get(NULL), None);
    assert_eq!(heap.get(1), None);
}

#[test]
fn addresses_count_up_from_one() {
    let mut heap = Heap::new();
    assert_eq!(heap.allocate(Block::Bytes(vec![1])), 1);
    assert_eq!(heap.allocate(Block::Text(vec![0])), 2);
    assert_eq!(heap.allocate(Block::Fields(vec![FormField { name: 2, value: 2 }])), 3);
    assert!(heap.is_live(1) && heap.is_live(2) && heap.is_live(3));
    assert!(!heap.is_live(4));
    assert!(!heap.is_live(usize::MAX));
    assert!(!heap.is_empty());
}

#[test]
fn get_finds_what_was_allocated() {
    let mut heap = Heap::new();
    let a = heap.allocate(Block::Bytes(vec![1, 2, 3]));
    let b = heap.allocate(Block::Form(FormData {
        fields: NULL,
        field_count: 0,
        files: NULL,
        file_count: 0,
    }));
    assert_eq!(heap.get(a), Some(&Block::Bytes(vec![1, 2, 3])));
    assert_eq!(
        heap.get(b),
        Some(&Block::Form(FormData { fields: NULL, field_count: 0, files: NULL, file_count: 0 }))
    );
}

#[test]
fn release_takes_one_block_and_leaves_the_others() {
    let mut heap = Heap::new();
    let a = heap.allocate(Block::Bytes(vec![1]));
    let b = heap.allocate(Block::Bytes(vec![2]));
    let c = heap.allocate(Block::Bytes(vec![3]));
    assert_eq!(heap.release(b), Block::Bytes(vec![2]));
    assert!(heap.is_live(a));
    assert!(!heap.is_live(b));
    assert!(heap.is_live(c));
    assert_eq!(heap.get(a), Some(&Block::Bytes(vec![1])));
    assert_eq!(heap.get(b), None);
    assert_eq!(heap.get(c), Some(&Block::Bytes(vec![3])));
    assert_eq!(heap.release(c), Block::Bytes(vec![3]));
    assert_eq!(heap.release(a), Block::Bytes(vec![1]));
    assert!(heap.is_empty());
}

#[test]
fn released_address_is_not_handed_out_again() {
    let mut heap = Heap::new();
    let a = heap.allocate(Block::Bytes(vec![1]));
    heap.release(a);
    let b = heap.allocate(Block::Bytes(vec![2]));
    assert_ne!(a, b);
    assert!(!heap.is_live(a));
    assert_eq!(heap.get(b), Some(&Block::Bytes(vec![2])));
}
