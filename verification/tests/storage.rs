use flex_alloc::secure::{page_rounded_length, ProtectionMode, SecureAlloc};
use flex_alloc::storage::utils::layout_aligned_bytes;
use flex_alloc::storage::{
    aligned_byte_storage, array_layout, byte_storage, min_non_zero_cap, FixedAlloc, Global,
    Layout, RawAlloc,
};
use flex_alloc::vec::Vec as FlexVec;
use flex_alloc::{LayoutError, StorageError};

#[test]
fn check_min_cap() {
    assert_eq!(min_non_zero_cap::<u8>(), 8);
    assert_eq!(min_non_zero_cap::<usize>(), 4);
    assert_eq!(min_non_zero_cap::<[u8; 1025]>(), 1);
}

#[test]
fn check_cap() {
    let alloc = SecureAlloc::with_page_size(4096).unwrap();
    let vec = FlexVec::<usize, SecureAlloc>::with_capacity_in(1, alloc);
    assert!(vec.capacity() > 1);
    assert_eq!(vec.capacity(), 4096 / core::mem::size_of::<usize>());
}

#[test]
fn secure_alloc_rejects_odd_page_size() {
    assert!(SecureAlloc::with_page_size(0).is_none());
    assert!(SecureAlloc::with_page_size(3000).is_none());
    assert_eq!(SecureAlloc::with_page_size(16384).unwrap().page_size(), 16384);
}

#[test]
fn page_rounding_examples() {
    assert_eq!(page_rounded_length(0, 4096), 0);
    assert_eq!(page_rounded_length(1, 4096), 4096);
    assert_eq!(page_rounded_length(4096, 4096), 4096);
    assert_eq!(page_rounded_length(4097, 4096), 8192);
    assert_eq!(page_rounded_length(10000, 16384), 16384);
}

#[test]
fn protection_mode_default_is_read_write() {
    assert_eq!(ProtectionMode::default(), ProtectionMode::ReadWrite);
}

#[test]
fn array_layout_sizes() {
    let l = array_layout::<u32>(10).unwrap();
    assert_eq!(l.size, 40);
    assert_eq!(l.align, core::mem::align_of::<u32>());
    assert_eq!(array_layout::<()>(usize::MAX).unwrap().size, 0);
    assert_eq!(
        array_layout::<u64>(usize::MAX / 4),
        Err(StorageError::LayoutError(LayoutError))
    );
}

#[test]
fn reserve_layout_error() {
    let mut v = FlexVec::<u64>::new();
    assert_eq!(
        v.try_reserve(usize::MAX / 4),
        Err(StorageError::LayoutError(LayoutError))
    );
    assert_eq!(v.capacity(), 0);
    assert_eq!(v.try_reserve_exact(usize::MAX), Err(StorageError::LayoutError(LayoutError)));
}

#[test]
fn reserve_overflow_is_capacity_limit() {
    let mut v = FlexVec::<u8>::new();
    v.push(1);
    assert_eq!(v.try_reserve(usize::MAX), Err(StorageError::CapacityLimit));
    assert_eq!(v.as_slice(), &[1]);
}

#[test]
fn global_grants_exact_capacity() {
    let mut v = FlexVec::<u32>::new_in(Global);
    v.reserve_exact(7);
    assert_eq!(v.capacity(), 7);
    v.reserve(8);
    assert_eq!(v.capacity(), 14);
}

#[test]
fn aligned_bytes_skip_offset() {
    let layout = Layout { size: 7, align: 4 };
    assert_eq!(layout_aligned_bytes(10, 3, layout), Ok(7));
    assert_eq!(layout_aligned_bytes(10, 0, layout), Ok(10));
    let layout = Layout { size: 8, align: 4 };
    assert_eq!(layout_aligned_bytes(10, 3, layout), Err(StorageError::CapacityLimit));
    let empty = Layout { size: 0, align: 4 };
    assert_eq!(layout_aligned_bytes(2, 3, empty), Err(StorageError::CapacityLimit));
}

#[test]
fn byte_storage_sets_aside_padding() {
    // Bytes aligned for `u32` hold 125 of them; bytes without a known
    // alignment set aside three bytes of padding first.
    let mut aligned = aligned_byte_storage::<u32, 500>();
    let v = FlexVec::<u32, _>::try_with_capacity_in(1, &mut aligned).ok().unwrap();
    assert_eq!(v.capacity(), 125);
    let mut plain = byte_storage::<500>();
    let v = FlexVec::<u32, _>::try_with_capacity_in(1, &mut plain).ok().unwrap();
    assert_eq!(v.capacity(), 124);
    let mut tiny = byte_storage::<2>();
    assert_eq!(
        FlexVec::<u32, _>::try_with_capacity_in(0, &mut tiny).err(),
        Some(StorageError::CapacityLimit)
    );
}

#[test]
fn fixed_alloc_resize_keeps_alignment() {
    let alloc = FixedAlloc;
    let old = Layout { size: 16, align: 8 };
    assert_eq!(alloc.try_resize(old, Layout { size: 8, align: 8 }), Ok(16));
    assert_eq!(
        alloc.try_resize(old, Layout { size: 8, align: 4 }),
        Err(StorageError::CapacityLimit)
    );
    assert_eq!(
        alloc.try_resize(old, Layout { size: 32, align: 8 }),
        Err(StorageError::CapacityLimit)
    );
}

#[test]
fn secure_protected_length_rounds_to_pages() {
    let alloc = SecureAlloc::with_page_size(4096).unwrap();
    assert_eq!(alloc.protected_length(0), Ok(0));
    assert_eq!(alloc.protected_length(1), Ok(4096));
    assert_eq!(alloc.protected_length(4096), Ok(4096));
    assert_eq!(alloc.protected_length(4097), Ok(8192));
    assert_eq!(alloc.protected_length(usize::MAX), Err(StorageError::AllocError));
}
