//! Tests for the window buffer: yield-order pushes and clamped evictions.

use lazy_list::WindowBuffer;

fn contents(b: &WindowBuffer<u32>) -> Vec<u32> {
    let mut out = Vec::new();
    let mut i = 0;
    while i < b.len() {
        out.push(*b.get(i));
        i += 1;
    }
    out
}

#[test]
fn front_pushes_in_yield_order_reverse_the_batch() {
    let mut b: WindowBuffer<u32> = WindowBuffer::new();
    b.push_back_yielded(vec![10, 11, 12]);
    // a front batch arrives in descending index order: 9, 8, 7
    b.push_front_yielded(vec![9, 8, 7]);
    assert_eq!(contents(&b), vec![7, 8, 9, 10, 11, 12]);
}

#[test]
fn back_pushes_keep_yield_order() {
    let mut b: WindowBuffer<u32> = WindowBuffer::new();
    b.push_back_yielded(vec![1, 2]);
    b.push_back_yielded(vec![3]);
    b.push_back_yielded(vec![]);
    assert_eq!(contents(&b), vec![1, 2, 3]);
}

#[test]
fn evictions_are_clamped_to_the_buffer() {
    let mut b: WindowBuffer<u32> = WindowBuffer::new();
    b.push_back_yielded(vec![1, 2, 3, 4, 5]);
    b.evict_front(2);
    assert_eq!(contents(&b), vec![3, 4, 5]);
    b.evict_back(1);
    assert_eq!(contents(&b), vec![3, 4]);
    b.evict_front(10);
    assert_eq!(contents(&b), Vec::<u32>::new());
    b.evict_back(3);
    assert_eq!(contents(&b), Vec::<u32>::new());
}

#[test]
fn clear_discards_everything() {
    let mut b: WindowBuffer<u32> = WindowBuffer::new();
    b.push_back_yielded(vec![1, 2, 3]);
    b.clear();
    assert_eq!(b.len(), 0);
}
