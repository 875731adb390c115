use flex_alloc::storage::{Global, ZeroizingAlloc};
use flex_alloc::vec::{Vec as FlexVec, ZeroizingVec};

#[test]
fn vec_zeroizing_alloc_global() {
    let mut v = FlexVec::<usize, _>::new_in(ZeroizingAlloc::<Global>::default());
    v.extend(vec![1, 2, 3]);
    assert_eq!(v.as_slice(), &[1, 2, 3]);
}

#[test]
fn vec_zeroizingvec_alias() {
    let mut v = ZeroizingVec::new();
    v.extend(vec![1, 2, 3]);
    assert_eq!(v.as_slice(), &[1, 2, 3]);
}
