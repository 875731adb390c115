use flex_alloc::storage::{array_storage, Inline};
use flex_alloc::vec::{InlineVec, Vec as FlexVec};
use flex_alloc::{InsertionError, StorageError};

#[test]
fn storage_error_descriptions() {
    assert_eq!(StorageError::AllocError.as_str(), "Allocation error");
    assert_eq!(StorageError::CapacityLimit.as_str(), "Exceeded storage capacity limit");
    assert_eq!(
        StorageError::LayoutError(flex_alloc::LayoutError).as_str(),
        "Layout error"
    );
    assert_eq!(StorageError::Unsupported.as_str(), "Unsupported");
    assert_eq!(StorageError::from(flex_alloc::LayoutError), StorageError::LayoutError(flex_alloc::LayoutError));
}

#[test]
fn insertion_error_returns_value() {
    let mut v = InlineVec::<String, 1>::new();
    v.push("a".to_string());
    let err: InsertionError<String> = v.try_push("b".to_string()).unwrap_err();
    assert_eq!(err.as_str(), "Insertion error");
    assert_eq!(*err.error(), StorageError::CapacityLimit);
    assert_eq!(err.into_value(), "b");
    assert_eq!(v.as_slice(), &["a".to_string()]);
}

#[test]
fn insertion_error_new() {
    let err = InsertionError::new(StorageError::AllocError, 5u8);
    assert_eq!(*err.error(), StorageError::AllocError);
    assert_eq!(err.into_value(), 5);
}

#[test]
fn fixed_storage_cannot_grow() {
    let mut z = array_storage::<u16, 2>();
    let mut v = FlexVec::new_in(&mut z);
    assert_eq!(v.capacity(), 2);
    v.push(1);
    v.push(2);
    assert_eq!(v.try_push(3).unwrap_err().error(), &StorageError::CapacityLimit);
    assert_eq!(v.try_insert(0, 3).unwrap_err().into_value(), 3);
    assert_eq!(v.as_slice(), &[1, 2]);
    assert_eq!(v.try_reserve(1), Err(StorageError::CapacityLimit));
    assert_eq!(v.capacity(), 2);
}

#[test]
fn inline_shrink_keeps_buffer() {
    let mut v = FlexVec::<u8, Inline<4>>::new();
    v.push(1);
    assert_eq!(v.try_shrink_to_fit(), Ok(()));
    assert_eq!(v.capacity(), 4);
    assert!(FlexVec::<u8, Inline<4>>::try_new_in(Inline::<4>).is_ok());
    assert!(matches!(
        FlexVec::<u8, Inline<4>>::try_with_capacity_in(5, Inline::<4>),
        Err(StorageError::CapacityLimit)
    ));
}

#[test]
fn push_within_capacity_never_grows() {
    let mut v = FlexVec::<u8>::new();
    assert_eq!(v.push_within_capacity(1), Err(1));
    v.reserve_exact(1);
    assert_eq!(v.push_within_capacity(1), Ok(()));
    assert_eq!(v.push_within_capacity(2), Err(2));
    assert_eq!(v.as_slice(), &[1]);
}

#[test]
fn write_fills_spare_capacity_at_limit() {
    let mut z = array_storage::<u8, 4>();
    let mut v = FlexVec::new_in(&mut z);
    assert_eq!(v.write(&[1, 2]), Ok(2));
    assert_eq!(v.write(&[3, 4, 5]), Ok(2));
    assert_eq!(v.as_slice(), &[1, 2, 3, 4]);
    let mut g = FlexVec::<u8>::new();
    assert_eq!(g.write(b"hello"), Ok(5));
    assert_eq!(g.as_slice(), b"hello");
}
