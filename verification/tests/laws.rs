use flex_alloc::storage::{aligned_byte_storage, array_storage, Global, Inline, WithAlloc};
use flex_alloc::vec::Vec as FlexVec;

#[test]
fn push_then_pop_restores() {
    let mut v = FlexVec::<u32>::from_slice(&[1, 2, 3]);
    v.push(9);
    assert_eq!(v.pop(), Some(9));
    assert_eq!(v.as_slice(), &[1, 2, 3]);
}

#[test]
fn insert_then_remove_restores() {
    let mut v = FlexVec::<u32>::from_slice(&[1, 2, 3]);
    v.insert(1, 7);
    assert_eq!(v.as_slice(), &[1, 7, 2, 3]);
    assert_eq!(v.remove(1), 7);
    assert_eq!(v.as_slice(), &[1, 2, 3]);
}

#[test]
fn split_off_then_append_restores() {
    let mut v1 = FlexVec::<u32>::from_slice(&[1, 2, 3, 4, 5, 6]);
    let mut v2 = v1.split_off(3);
    assert_eq!(v1.as_slice(), &[1, 2, 3]);
    assert_eq!(v2.as_slice(), &[4, 5, 6]);
    v1.append(&mut v2);
    assert_eq!(v1.as_slice(), &[1, 2, 3, 4, 5, 6]);
    assert!(v2.is_empty());
}

#[test]
fn split_off_at_zero_exchanges_buffers() {
    let mut v1 = FlexVec::<u32>::with_capacity(8);
    v1.extend_from_slice(&[1, 2]);
    let v2 = v1.split_off(0);
    assert_eq!(v2.as_slice(), &[1, 2]);
    assert_eq!(v2.capacity(), 8);
    assert!(v1.is_empty());
    assert_eq!(v1.capacity(), 2);
}

#[test]
fn append_to_empty_takes_buffer() {
    let mut v1 = FlexVec::<u32>::new();
    let mut v2 = FlexVec::<u32>::with_capacity(10);
    v2.extend_from_slice(&[1, 2, 3]);
    v1.append(&mut v2);
    assert_eq!(v1.as_slice(), &[1, 2, 3]);
    assert_eq!(v1.capacity(), 10);
    assert!(v2.is_empty());
    assert_eq!(v2.capacity(), 0);
}

#[test]
fn drain_then_splice_back_restores() {
    let mut v = FlexVec::<usize>::from_iter((0..10).collect());
    let removed: Vec<usize> = {
        let mut d = v.drain(3..8);
        let mut out = Vec::new();
        while let Some(x) = d.next() {
            out.push(x);
        }
        out
    };
    assert_eq!(v.as_slice(), &[0, 1, 2, 8, 9]);
    assert_eq!(removed, vec![3, 4, 5, 6, 7]);
    let s = v.splice(3..3, removed);
    assert_eq!(s.len(), 0);
    assert_eq!(v.as_slice(), &[0, 1, 2, 3, 4, 5, 6, 7, 8, 9]);
}

#[test]
fn splice_replaces_range() {
    let mut v = FlexVec::<usize>::from_iter((0..10).collect());
    let mut splice = v.splice(1..5, vec![11, 12, 13, 14, 15]);
    assert_eq!(splice.next(), Some(1));
    assert_eq!(splice.next_back(), Some(4));
    assert_eq!(splice.len(), 2);
    assert_eq!(v.as_slice(), &[0, 11, 12, 13, 14, 15, 5, 6, 7, 8, 9]);
}

#[test]
fn retain_all_and_none() {
    let mut v = FlexVec::<u32>::from_slice(&[1, 2, 3]);
    v.retain(|_| true);
    assert_eq!(v.as_slice(), &[1, 2, 3]);
    let cap = v.capacity();
    v.retain(|_| false);
    assert!(v.is_empty());
    assert_eq!(v.capacity(), cap);
}

#[test]
fn dedup_removes_adjacent_repeats() {
    let mut v = FlexVec::<usize>::from_iter(vec![0, 1, 1, 0, 2, 4, 7, 7, 7]);
    v.dedup();
    assert_eq!(v.as_slice(), &[0, 1, 0, 2, 4, 7]);
    let mut w = FlexVec::<i32>::from_slice(&[10, 20, 21, 30, 20]);
    w.dedup_by_key(|x| *x / 10);
    assert_eq!(w.as_slice(), &[10, 20, 30, 20]);
}

#[test]
fn shrink_keeps_length_and_minimum() {
    let mut v = FlexVec::<u32>::with_capacity(10);
    v.extend_from_slice(&[1, 2, 3]);
    v.shrink_to(5);
    assert_eq!(v.capacity(), 5);
    v.shrink_to(8);
    assert_eq!(v.capacity(), 5);
    v.shrink_to_fit();
    assert_eq!(v.capacity(), 3);
    assert_eq!(v.as_slice(), &[1, 2, 3]);
    v.clear();
    v.shrink_to_fit();
    assert_eq!(v.capacity(), 0);
}

#[test]
fn reserve_exact_global_is_exact() {
    let mut v = FlexVec::<u32>::from_slice(&[1, 2, 3]);
    v.reserve_exact(5);
    assert_eq!(v.capacity(), 5);
    v.reserve_exact(2);
    assert_eq!(v.capacity(), 5);
    assert_eq!(v.as_slice(), &[1, 2, 3]);
}

#[test]
fn reserve_exact_does_not_exceed_argument() {
    let mut v = FlexVec::<usize>::from_slice(&[1, 2]);
    assert_eq!(v.capacity(), 2);
    v.reserve_exact(3);
    assert_eq!(v.capacity(), 3);
    assert_eq!(v.as_slice(), &[1, 2]);
}

#[test]
fn growth_at_least_doubles() {
    let mut v = FlexVec::<u8>::new();
    v.push(1);
    assert_eq!(v.capacity(), 8);
    for i in 0..8 {
        v.push(i);
    }
    assert_eq!(v.capacity(), 16);
}

#[test]
fn inline_capacity_never_changes() {
    let mut v = FlexVec::<u8, Inline<3>>::new();
    assert_eq!(v.capacity(), 3);
    v.extend_from_slice(&[1, 2, 3]);
    assert!(v.try_push(4).is_err());
    assert_eq!(v.capacity(), 3);
}

#[test]
fn fixed_storage_capacity_fits_bytes() {
    let mut z = aligned_byte_storage::<u32, 30>();
    let v = FlexVec::<u32, _>::new_in(&mut z);
    assert_eq!(v.capacity(), 7);
    assert!(v.capacity() * 4 <= 30);
    let mut a = array_storage::<u32, 5>();
    let mut w = FlexVec::new_in(&mut a);
    w.shrink_to(2);
    assert_eq!(w.capacity(), 2);
    assert!(w.try_reserve(3).is_err());
}

#[test]
fn resize_and_resize_with() {
    let mut v = FlexVec::<usize>::from_slice(&[1, 2, 3]);
    v.resize(5, 10);
    assert_eq!(v.as_slice(), &[1, 2, 3, 10, 10]);
    v.resize(2, 0);
    assert_eq!(v.as_slice(), &[1, 2]);
    v.resize_with(4, || 7);
    assert_eq!(v.as_slice(), &[1, 2, 7, 7]);
}

#[test]
fn extend_from_within_clones_range() {
    let mut v = FlexVec::<usize>::from_slice(&[1, 2, 3]);
    v.extend_from_within(0..3);
    assert_eq!(v.as_slice(), &[1, 2, 3, 1, 2, 3]);
    v.extend_from_within(1..2);
    assert_eq!(v.as_slice(), &[1, 2, 3, 1, 2, 3, 2]);
}

#[test]
fn clone_and_clone_from() {
    let mut v = FlexVec::<u32>::with_capacity(10);
    v.push(1);
    let v2 = v.clone();
    assert_eq!(v2.as_slice(), &[1]);
    assert_eq!(v2.capacity(), 1);
    let mut v3 = FlexVec::<u32>::from_slice(&[5, 6, 7]);
    v3.clone_from(&v);
    assert_eq!(v3.as_slice(), &[1]);
    assert_eq!(v3.capacity(), 3);
}

#[test]
fn truncate_keeps_capacity() {
    let mut v = FlexVec::<u32>::from_slice(&[1, 2, 3, 4]);
    v.truncate(2);
    assert_eq!(v.as_slice(), &[1, 2]);
    assert_eq!(v.capacity(), 4);
    v.truncate(5);
    assert_eq!(v.as_slice(), &[1, 2]);
}

#[test]
fn new_in_spill_storage_spills() {
    let mut z = array_storage::<u32, 2>();
    let mut v = FlexVec::with_capacity_in(4, (&mut z).with_alloc_in(Global));
    assert_eq!(v.capacity(), 4);
    v.extend_from_slice(&[1, 2, 3, 4, 5]);
    assert_eq!(v.capacity(), 8);
}
