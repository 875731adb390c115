//! Layout arithmetic shared by the storage implementations.
use vstd::prelude::*;

use crate::error::{LayoutError, StorageError};

verus! {

/// The memory layout of an array allocation: a byte size and an alignment.
#[derive(Clone, Copy, Debug, PartialEq, Eq)]
pub struct Layout {
    /// The size of the allocation in bytes.
    pub size: usize,
    /// The alignment of the allocation in bytes.
    pub align: usize,
}

/// The largest byte size a layout of alignment `align` may have: the size
/// rounded up to the alignment must not exceed `isize::MAX`.
pub open spec fn max_size_for_align(align: nat) -> int {
    isize::MAX as int - (align - 1)
}

/// The layout of an array of `count` items each of `elem_size` bytes and
/// alignment `elem_align`, or the layout error when its size is not representable.
pub open spec fn spec_layout(elem_size: nat, elem_align: nat, count: nat) -> Result<
    Layout,
    StorageError,
> {
    if count * elem_size <= max_size_for_align(elem_align) {
        Ok(Layout { size: (count * elem_size) as usize, align: elem_align as usize })
    } else {
        Err(StorageError::LayoutError(LayoutError))
    }
}

/// The layout of an array of `count` items of type `T`, or the layout error.
pub open spec fn spec_array_layout<T>(count: nat) -> Result<Layout, StorageError> {
    spec_layout(vstd::layout::size_of::<T>(), vstd::layout::align_of::<T>(), count)
}

/// Compute the layout of an array of `count` items of type `T`.
pub fn array_layout<T>(count: usize) -> (r: Result<Layout, StorageError>)
    ensures
        r == spec_array_layout::<T>(count as nat),
{
    vstd::layout::layout_for_type_is_valid::<T>();
    let size: usize = core::mem::size_of::<T>();
    let align: usize = core::mem::align_of::<T>();
    proof {
        broadcast use vstd::layout::align_nonzero;
    }
    let max_size: usize = match (isize::MAX as usize).checked_sub(align - 1) {
        Some(m) => m,
        None => {
            proof {
                assert(count * size >= 0) by (nonlinear_arith);
            }
            return Err(StorageError::LayoutError(LayoutError));
        },
    };
    if size != 0 && count > max_size / size {
        proof {
            assert(count * size > max_size) by (nonlinear_arith)
                requires
                    size > 0,
                    count > max_size / size,
            ;
        }
        Err(StorageError::LayoutError(LayoutError))
    } else {
        proof {
            if size != 0 {
                assert(count * size <= max_size) by (nonlinear_arith)
                    requires
                        size > 0,
                        count <= max_size / size,
                ;
            } else {
                assert(count * size == 0) by (nonlinear_arith)
                    requires
                        size == 0,
                ;
            }
        }
        Ok(Layout { size: count * size, align })
    }
}

/// The bytes of a buffer of `len` bytes available to a layout of `size`
/// bytes once the first `offset` bytes are skipped for alignment: all the
/// bytes after the offset, or a capacity error when they are too few or the
/// offset lies beyond the buffer.
pub open spec fn spec_layout_aligned_bytes(len: nat, offset: nat, size: nat) -> Result<
    nat,
    StorageError,
> {
    if offset > len || len - offset < size {
        Err(StorageError::CapacityLimit)
    } else {
        Ok((len - offset) as nat)
    }
}

/// Place `layout` in a buffer of `len` bytes whose first `offset` bytes are
/// skipped for alignment, returning the number of bytes available.
pub fn layout_aligned_bytes(len: usize, offset: usize, layout: Layout) -> (r: Result<
    usize,
    StorageError,
>)
    ensures
        match spec_layout_aligned_bytes(len as nat, offset as nat, layout.size as nat) {
            Ok(n) => r == Ok::<usize, StorageError>(n as usize),
            Err(e) => r == Err::<usize, StorageError>(e),
        },
{
    let max_cap: usize = len.saturating_sub(offset);
    if max_cap < layout.size || offset > len {
        Err(StorageError::CapacityLimit)
    } else {
        Ok(max_cap)
    }
}

/// The smallest non-zero capacity worth allocating for items of type `T`.
pub open spec fn spec_min_non_zero_cap<T>() -> nat {
    if vstd::layout::size_of::<T>() == 1 {
        8
    } else if vstd::layout::size_of::<T>() <= 1024 {
        4
    } else {
        1
    }
}

/// The smallest non-zero capacity worth allocating for items of type `T`:
/// eight for single bytes, four for items up to a kilobyte, one otherwise.
pub fn min_non_zero_cap<T>() -> (r: usize)
    ensures
        r == spec_min_non_zero_cap::<T>(),
        1 <= r <= 8,
{
    let size: usize = core::mem::size_of::<T>();
    if size == 1 {
        8
    } else if size <= 1024 {
        4
    } else {
        1
    }
}

} // verus!
