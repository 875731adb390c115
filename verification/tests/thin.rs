use flex_alloc::storage::{Global, Layout, Thin};
use flex_alloc::vec::buffer::thin_layout;
use flex_alloc::vec::config::Custom;
use flex_alloc::vec::{ThinVec, Vec as FlexVec};
use flex_alloc::{LayoutError, StorageError};

#[test]
fn thin_layout_places_items_after_header() {
    // A `u8` header of two bytes, followed by three bytes.
    assert_eq!(thin_layout::<u8, u8>(3), Ok(Layout { size: 5, align: 1 }));
    // The items start at the header size rounded up to their alignment.
    assert_eq!(thin_layout::<u64, u8>(1), Ok(Layout { size: 16, align: 8 }));
    // An empty buffer needs no memory.
    assert_eq!(thin_layout::<u64, u8>(0), Ok(Layout { size: 0, align: 1 }));
}

#[test]
fn thin_layout_usize_header() {
    assert_eq!(thin_layout::<u64, usize>(4), Ok(Layout { size: 48, align: 8 }));
    assert_eq!(thin_layout::<u8, usize>(1), Ok(Layout { size: 17, align: 8 }));
}

#[test]
fn thin_layout_counts_header_against_limit() {
    let cap = isize::MAX as usize - 1;
    assert_eq!(
        thin_layout::<u8, usize>(cap),
        Err(StorageError::LayoutError(LayoutError))
    );
    // The same items without a header form a valid layout.
    assert!(FlexVec::<u8>::try_with_capacity(cap).is_ok());
    assert_eq!(
        ThinVec::<u8>::try_with_capacity(cap).err(),
        Some(StorageError::LayoutError(LayoutError))
    );
}

#[test]
fn thin_vec_push_and_grow() {
    let mut v = ThinVec::<usize>::new();
    assert_eq!(v.capacity(), 0);
    v.push(32);
    assert_eq!(v.as_slice(), &[32]);
    assert_eq!(v.capacity(), 4);
    v.extend_from_slice(&[1, 2, 3, 4]);
    assert_eq!(v.as_slice(), &[32, 1, 2, 3, 4]);
    assert_eq!(v.capacity(), 8);
}

#[test]
fn vec_custom_thin_index_capacity() {
    let mut v = FlexVec::<usize, Custom<Thin, u8>>::new();
    v.resize(255, 1);
    assert_eq!(v.len(), 255);
    assert!(v.try_push(1).is_err());

    let mut v = FlexVec::new_in(Custom::<Thin, u8>::default());
    v.resize(255, 1);
    assert!(v.try_push(1).is_err());
}

#[test]
fn vec_custom_thin_new_in_global() {
    let mut v = FlexVec::new_in(Custom::<Thin, u8>::new(Global));
    v.push(7u32);
    assert_eq!(v.as_slice(), &[7]);
    assert_eq!(v.capacity(), 1);
}
