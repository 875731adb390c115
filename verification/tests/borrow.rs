use flex_alloc::borrow::Cow;
use flex_alloc::storage::{array_storage, Global};
use flex_alloc::vec::Vec as FlexVec;
use flex_alloc::StorageError;

#[test]
fn cow_cow_borrow_vec() {
    let mut b = Cow::<u32, Global>::default();
    assert!(b.is_owned());
    b.to_mut().push(1);
    assert_eq!(b.into_owned().as_slice(), &[1]);

    let b = Cow::<u32, Global>::from(&[1, 2, 3][..]);
    assert!(b.is_borrowed());
    assert_eq!(b.into_owned().as_slice(), &[1, 2, 3]);
}

#[test]
fn const_default_cow() {
    let c = Cow::<u32, Global>::default();
    assert_eq!(c.as_slice(), &[] as &[u32]);
}

#[test]
fn cow_to_mut_copies_borrowed_items() {
    let data = [4u32, 5, 6];
    let mut c = Cow::<u32, Global>::from(&data[..]);
    c.to_mut().push(7);
    assert!(c.is_owned());
    assert_eq!(&*c, &[4, 5, 6, 7]);
    assert_eq!(data, [4, 5, 6]);
}

#[test]
fn cow_owned_stays_owned() {
    let mut v = FlexVec::<u32>::new();
    v.push(9);
    let c = Cow::<u32, Global>::from(v);
    assert!(c.is_owned());
    let v = c.try_into_owned().ok().unwrap();
    assert_eq!(v.as_slice(), &[9]);
}

#[test]
fn cow_into_owned_in_fixed_storage() {
    let mut buf = array_storage::<u32, 2>();
    let c = Cow::<u32, _>::from(&[1, 2, 3][..]);
    assert_eq!(
        c.try_into_owned_in(&mut buf).err(),
        Some(StorageError::CapacityLimit)
    );

    let mut buf = array_storage::<u32, 4>();
    let c = Cow::<u32, _>::from(&[1, 2, 3][..]);
    let v = c.into_owned_in(&mut buf);
    assert_eq!(v.as_slice(), &[1, 2, 3]);
    assert_eq!(v.capacity(), 4);
}
