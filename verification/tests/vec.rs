use flex_alloc::index::Index;
use flex_alloc::storage::{
    aligned_byte_storage, array_storage, byte_storage, Global, Inline, WithAlloc,
};
use flex_alloc::vec::config::Custom;
use flex_alloc::vec::{from_array, from_array_in, from_elem, from_elem_in, InlineVec, Vec as FlexVec};

const SLICE: &[usize] = &[1, 2, 3, 4, 5];

#[test]
fn vec_retain() {
    let mut b = FlexVec::<usize>::new();
    b.insert_slice(0, &[1, 2, 3, 4]);
    assert_eq!(b.as_slice(), &[1, 2, 3, 4]);
    b.retain(|i| i % 2 == 0);
    assert_eq!(b.as_slice(), &[2, 4]);
}

#[test]
fn vec_check_grow_double() {
    let mut res = [0usize; 10];
    let mut vec = FlexVec::<usize>::new();
    for cap in res.iter_mut() {
        vec.push(1);
        *cap = vec.capacity();
    }
    assert_eq!(res, [4, 4, 4, 4, 8, 8, 8, 8, 16, 16]);
}

#[test]
fn vec_extend_large_global() {
    let mut b = FlexVec::<usize>::new();
    let count = 1000000;
    b.extend((0..count).collect());
    for i in 0..count {
        assert_eq!(b[i], i);
    }
}

#[test]
fn vec_splice_compat() {
    let mut v = Vec::<u32>::from_iter(0..10);
    let mut splice = v.splice(1..5, [11, 12, 13, 14, 15]);
    assert_eq!(splice.next(), Some(1));
    assert_eq!(splice.next_back(), Some(4));
    drop(splice);
    assert_eq!(&v[..], &[0, 11, 12, 13, 14, 15, 5, 6, 7, 8, 9])
}

#[test]
fn vec_into_std_vec() {
    let mut b = FlexVec::<usize>::with_capacity(10);
    b.insert_slice(0, &[1, 2, 3, 4]);
    let vec = std::vec::Vec::<usize>::from(b);
    assert_eq!(vec, &[1, 2, 3, 4]);
}

#[test]
fn vec_new_in_array_with_alloc() {
    let mut z = array_storage::<_, 3>();
    // alloc will fit inside array storage
    let mut b = FlexVec::new_in((&mut z).with_alloc());
    b.push(32);
    assert_eq!(b.capacity(), 3);
    drop(b);

    // alloc will not fit inside array storage
    let mut b = FlexVec::from_slice_in(&[0, 1, 2, 3, 4, 5, 6, 7], (&mut z).with_alloc());
    b.extend_from_slice(&[0, 1, 2, 3, 4, 5, 6, 7]);
    assert_eq!(b.as_slice(), &[0, 1, 2, 3, 4, 5, 6, 7, 0, 1, 2, 3, 4, 5, 6, 7]);
}

#[test]
fn vec_new_in_array_zst() {
    struct Item;
    let mut z = array_storage::<Item, 32>();
    let mut b = FlexVec::new_in(&mut z);
    assert_eq!(b.capacity(), 32);
    b.push(Item);
    assert_eq!(b.len(), 1);
}

#[test]
fn vec_new_in_bytes_with_alloc() {
    let mut z = byte_storage::<20>();
    // alloc should fit inside byte storage
    let mut b = FlexVec::new_in((&mut z).with_alloc());
    b.push(32);
    drop(b);

    // alloc will not fit inside byte storage
    let mut b = FlexVec::from_slice_in(&[0, 1, 2, 3, 4, 5, 6, 7], (&mut z).with_alloc());
    b.extend_from_slice(&[0, 1, 2, 3, 4, 5, 6, 7]);
    assert_eq!(b.len(), 16);
}

#[test]
fn vec_new_in_bytes_zst() {
    struct Item;
    let mut z = byte_storage::<500>();
    let mut b = FlexVec::<Item, _>::new_in(&mut z);
    assert_eq!(b.capacity(), usize::MAX);
    b.push(Item);
}

#[test]
fn vec_macro() {
    let v: FlexVec<i32> = FlexVec::new();
    assert_eq!(v.as_slice(), &[]);

    let v: FlexVec<i32> = FlexVec::new_in(Global);
    assert_eq!(v.as_slice(), &[]);

    let v = from_elem(1, 5);
    assert_eq!(v.as_slice(), &[1, 1, 1, 1, 1]);

    let v = from_elem_in(1, 5, Global);
    assert_eq!(v.as_slice(), &[1, 1, 1, 1, 1]);

    let v = from_array([1, 2, 3]);
    assert_eq!(v.as_slice(), &[1, 2, 3]);

    let v = from_array_in([1, 2, 3], Global);
    assert_eq!(v.as_slice(), &[1, 2, 3]);
}

#[test]
fn vec_zst() {
    #[derive(Clone, Copy, Debug, Default, PartialEq, Eq)]
    struct Zst;

    let mut b = FlexVec::<Zst>::new();
    b.push(Zst);
    assert_eq!(b.len(), 1);
    assert_eq!(b.as_slice()[0], Zst);
    assert_eq!(b.pop(), Some(Zst));
    assert_eq!(b.pop(), None);

    let mut b = FlexVec::<Zst>::new();
    b.extend(vec![Zst, Zst, Zst]);
    let len = b.len();
    let mut drain = b.drain(0..len);
    assert_eq!(drain.len(), 3);
    assert_eq!(drain.next(), Some(Zst));
    assert_eq!(drain.next_back(), Some(Zst));
    assert_eq!(drain.next(), Some(Zst));
    assert_eq!(drain.next(), None);

    let mut b = FlexVec::<Zst>::new();
    b.extend(vec![Zst, Zst, Zst]);
    let mut iter = b.into_iter();
    assert_eq!(iter.len(), 3);
    assert_eq!(iter.next(), Some(Zst));
    assert_eq!(iter.next_back(), Some(Zst));
    assert_eq!(iter.next(), Some(Zst));
    assert_eq!(iter.next(), None);
}

#[test]
fn vec_inline() {
    let mut b = InlineVec::<usize, 10>::new();
    b.push(32);
    assert_eq!(b.as_slice(), &[32]);
    assert_eq!(b.pop(), Some(32));
    assert_eq!(b.pop(), None);
    b.extend_from_slice(&[0, 1, 2, 3, 4, 5, 6, 7]);
    assert_eq!(b.as_slice(), &[0, 1, 2, 3, 4, 5, 6, 7][..]);
    assert_eq!(b.swap_remove(1), 1);
    assert_eq!(b.as_slice(), &[0, 7, 2, 3, 4, 5, 6][..]);
    assert_eq!(b.swap_remove(6), 6);
    assert_eq!(b.as_slice(), &[0, 7, 2, 3, 4, 5][..]);
}

#[test]
fn vec_new_in_array() {
    let mut z = array_storage::<_, 32>();
    let mut b = FlexVec::new_in(&mut z);
    b.push(32);
    assert_eq!(b.as_slice(), &[32]);
    assert_eq!(b.pop(), Some(32));
    assert_eq!(b.pop(), None);
    b.extend_from_slice(&[0, 1, 2, 3, 4, 5, 6, 7]);
    assert_eq!(b.as_slice(), &[0, 1, 2, 3, 4, 5, 6, 7][..]);
    assert_eq!(b.swap_remove(1), 1);
    assert_eq!(b.as_slice(), &[0, 7, 2, 3, 4, 5, 6][..]);
    assert_eq!(b.swap_remove(6), 6);
    assert_eq!(b.as_slice(), &[0, 7, 2, 3, 4, 5][..]);
}

#[test]
fn vec_new_in_bytes() {
    let mut z = byte_storage::<500>();
    let mut b = FlexVec::new_in(&mut z);
    b.push(32);
    assert_eq!(b.as_slice(), &[32]);
    assert_eq!(b.pop(), Some(32));
    assert_eq!(b.pop(), None);
    b.extend_from_slice(&[0, 1, 2, 3, 4, 5, 6, 7]);
    assert_eq!(b.as_slice(), &[0, 1, 2, 3, 4, 5, 6, 7][..]);
    assert_eq!(b.swap_remove(1), 1);
    assert_eq!(b.as_slice(), &[0, 7, 2, 3, 4, 5, 6][..]);
    assert_eq!(b.swap_remove(6), 6);
    assert_eq!(b.as_slice(), &[0, 7, 2, 3, 4, 5][..]);
}

#[test]
fn vec_new_in_bytes_aligned() {
    let mut z = aligned_byte_storage::<i32, 500>();
    assert!(core::mem::align_of_val(&z) == core::mem::align_of::<i32>());
    let mut b = FlexVec::<i32, _>::new_in(&mut z);
    assert!(b.capacity() == 125);
    b.push(32);
    assert_eq!(b.as_slice(), &[32]);
    assert_eq!(b.pop(), Some(32));
    assert_eq!(b.pop(), None);
    b.extend_from_slice(&[0, 1, 2, 3, 4, 5, 6, 7]);
    assert_eq!(b.as_slice(), &[0, 1, 2, 3, 4, 5, 6, 7][..]);
    assert_eq!(b.swap_remove(1), 1);
    assert_eq!(b.as_slice(), &[0, 7, 2, 3, 4, 5, 6][..]);
    assert_eq!(b.swap_remove(6), 6);
    assert_eq!(b.as_slice(), &[0, 7, 2, 3, 4, 5][..]);
}

#[test]
fn vec_custom_index_capacity() {
    let mut v = FlexVec::<usize, Custom<Global, u8>>::new();
    v.resize(255, 1);
    assert!(v.try_push(1).is_err());

    let mut v = FlexVec::new_in(Custom::<Global, u8>::default());
    v.resize(255, 1);
    assert!(v.try_push(1).is_err());
}

#[test]
fn inline_vec_config_capacity() {
    let v = FlexVec::<usize, Inline<10>>::with_capacity(Index::from_usize(10));
    assert_eq!(v.capacity(), 10);
    assert!(FlexVec::<usize, Inline<10>>::try_with_capacity(11).is_err());
}

#[test]
fn vec_from_slice_matches() {
    let v = FlexVec::<usize>::from_slice(SLICE);
    assert!(v.capacity() >= SLICE.len());
    assert_eq!(v.len(), SLICE.len());
    assert_eq!(v.as_slice(), SLICE);
}

#[test]
fn vec_dedup_by_compares_with_last_kept() {
    let mut v = FlexVec::<u32>::new();
    v.extend_from_slice(&[11, 12, 21, 22, 13]);
    let cap = v.capacity();
    v.dedup_by(|a, b| a / 10 == b / 10);
    assert_eq!(v.as_slice(), &[11, 21, 13]);
    assert_eq!(v.capacity(), cap);
}

#[test]
fn vec_from_iter_in_and_back() {
    let items = vec![3u8, 1, 4, 1, 5];
    let v = FlexVec::<u8, Global>::from_iter_in(items, Global);
    assert_eq!(v.as_slice(), &[3, 1, 4, 1, 5]);
    assert_eq!(v.capacity(), 5);
    let std_vec: std::vec::Vec<u8> = v.into_std_vec();
    assert_eq!(std_vec, vec![3, 1, 4, 1, 5]);
}

#[test]
fn inline_shrink_to_fit_keeps_capacity() {
    let mut v = InlineVec::<usize, 10>::from_slice(&[1, 2, 3]);
    assert_eq!(v.capacity(), 10);
    v.shrink_to_fit();
    assert_eq!(v.as_slice(), &[1, 2, 3]);
    assert_eq!(v.capacity(), 10);
}

#[test]
fn from_array_in_inline_capacity() {
    let v = from_array_in([1usize, 2, 3], Inline::<10>);
    assert_eq!(v.as_slice(), &[1, 2, 3]);
    assert_eq!(v.capacity(), 10);
}
