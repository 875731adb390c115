//! The header of thin `Vec` buffers, and the layout of their allocations.
//!
//! A thin buffer keeps its capacity and length in a header at the start of
//! its allocation, followed by the items at the first offset that suits
//! their alignment. The whole allocation must form a valid layout.
use vstd::prelude::*;

use crate::error::{LayoutError, StorageError};
use crate::index::{nat_max, Index};
use crate::storage::utils::{array_layout, max_size_for_align, spec_layout, Layout};

verus! {

/// The header associated with each thin `Vec` buffer.
#[derive(Debug, Copy, Clone)]
pub struct VecHeader<I: Index = usize> {
    /// The capacity of the buffer.
    pub capacity: I,
    /// The number of items stored in the buffer.
    pub length: I,
}

/// The size and alignment of the header of a thin buffer counted by `I`:
/// room for its two index values, the capacity and the length, aligned for
/// the index type.
pub open spec fn header_layout<I: Index>() -> (nat, nat) {
    (2 * vstd::layout::size_of::<I>(), vstd::layout::align_of::<I>())
}

/// `n` rounded up to a multiple of `align`.
pub open spec fn round_up(n: nat, align: nat) -> nat {
    if align == 0 {
        n
    } else {
        (((n + align - 1) as int / align as int) * align as int) as nat
    }
}

/// The header of a thin buffer counted by `usize` takes at most sixteen
/// bytes and is aligned to at most eight, on every target.
pub proof fn lemma_usize_header_layout()
    ensures
        0 < header_layout::<usize>().0 <= 16,
        0 < header_layout::<usize>().1 <= 8,
{
    broadcast use {
        vstd::layout::layout_of_primitives,
        vstd::layout::align_properties,
        vstd::layout::align_nonzero,
    };

    vstd::layout::usize_size_pow2();
    let size = vstd::layout::size_of::<usize>();
    let align = vstd::layout::align_of::<usize>();
    assert(size == 4 || size == 8);
    assert(size % align == 0);
    if align > size {
        assert(size % align == size) by (nonlinear_arith)
            requires
                0 < size < align,
        ;
    }
}

/// Rounding up to a positive alignment adds less than the alignment.
proof fn lemma_round_up_bounds(n: nat, align: nat)
    requires
        align > 0,
    ensures
        n <= round_up(n, align) < n + align,
{
    let m = (n + align - 1) as int;
    vstd::arithmetic::div_mod::lemma_fundamental_div_mod(m, align as int);
    assert((m / align as int) * align as int == m - m % align as int) by (nonlinear_arith)
        requires
            m == align as int * (m / align as int) + m % align as int,
    ;
}

/// The layout of a thin allocation for `cap` items of `elem_size` bytes and
/// alignment `elem_align`, behind a header of the given size and alignment:
/// the items start at the header size rounded up to their alignment, and the
/// allocation takes the larger of the two alignments. A buffer without
/// capacity needs no memory.
pub open spec fn spec_thin_layout(
    header: (nat, nat),
    elem_size: nat,
    elem_align: nat,
    cap: nat,
) -> Result<Layout, StorageError> {
    if cap == 0 {
        Ok(Layout { size: 0, align: header.1 as usize })
    } else {
        match spec_layout(elem_size, elem_align, cap) {
            Err(e) => Err(e),
            Ok(data) => {
                let size = round_up(header.0, elem_align) + data.size;
                let align = nat_max(header.1, elem_align);
                if size <= max_size_for_align(align) {
                    Ok(Layout { size: size as usize, align: align as usize })
                } else {
                    Err(StorageError::LayoutError(LayoutError))
                }
            },
        }
    }
}

/// Compute the layout of a thin allocation for `cap` items of type `T`
/// behind the header of a buffer counted by `I`.
pub fn thin_layout<T, I: Index>(cap: usize) -> (r: Result<Layout, StorageError>)
    ensures
        r == spec_thin_layout(
            header_layout::<I>(),
            vstd::layout::size_of::<T>(),
            vstd::layout::align_of::<T>(),
            cap as nat,
        ),
{
    vstd::layout::layout_for_type_is_valid::<I>();
    vstd::layout::layout_for_type_is_valid::<T>();
    let index_size: usize = core::mem::size_of::<I>();
    let header_size: usize = index_size + index_size;
    let header_align: usize = core::mem::align_of::<I>();
    if cap == 0 {
        return Ok(Layout { size: 0, align: header_align });
    }
    let data = match array_layout::<T>(cap) {
        Ok(l) => l,
        Err(e) => return Err(e),
    };
    let elem_align: usize = core::mem::align_of::<T>();
    let align: usize = if header_align > elem_align {
        header_align
    } else {
        elem_align
    };
    let bumped: usize = match header_size.checked_add(elem_align - 1) {
        Some(b) => b,
        None => {
            proof {
                lemma_round_up_bounds(header_size as nat, elem_align as nat);
            }
            return Err(StorageError::LayoutError(LayoutError));
        },
    };
    let offset: usize = bumped - bumped % elem_align;
    proof {
        vstd::arithmetic::div_mod::lemma_fundamental_div_mod(bumped as int, elem_align as int);
        assert(offset as int == (bumped as int / elem_align as int) * elem_align as int)
            by (nonlinear_arith)
            requires
                bumped as int == elem_align as int * (bumped as int / elem_align as int) + (
                bumped as int % elem_align as int),
                offset as int == bumped as int - (bumped as int % elem_align as int),
        ;
    }
    let size: usize = match offset.checked_add(data.size) {
        Some(s) => s,
        None => return Err(StorageError::LayoutError(LayoutError)),
    };
    let max_size: usize = match (isize::MAX as usize).checked_sub(align - 1) {
        Some(m) => m,
        None => return Err(StorageError::LayoutError(LayoutError)),
    };
    if size > max_size {
        Err(StorageError::LayoutError(LayoutError))
    } else {
        Ok(Layout { size, align })
    }
}

/// The capacity of a thin buffer resized from `old_cap` to `new_cap` items:
/// released when empty, and otherwise exactly the request whenever its
/// layout is valid, as the global heap grants exactly the requested size.
pub open spec fn thin_resize_result(
    header: (nat, nat),
    elem_size: nat,
    elem_align: nat,
    old_cap: nat,
    new_cap: nat,
) -> Result<nat, StorageError> {
    match spec_thin_layout(header, elem_size, elem_align, new_cap) {
        Ok(_) => Ok(new_cap),
        Err(e) => Err(e),
    }
}

/// Allocate or resize a thin buffer to hold `new_cap` items of type `T`,
/// returning the resulting capacity.
pub fn thin_resize<T, I: Index>(old_cap: I, new_cap: I) -> (r: Result<I, StorageError>)
    ensures
        r matches Ok(c) ==> c == new_cap,
        crate::storage::allocator::index_result(r) == thin_resize_result(
            header_layout::<I>(),
            vstd::layout::size_of::<T>(),
            vstd::layout::align_of::<T>(),
            old_cap.as_nat(),
            new_cap.as_nat(),
        ),
{
    match thin_layout::<T, I>(new_cap.to_usize()) {
        Ok(_) => Ok(new_cap),
        Err(e) => Err(e),
    }
}

} // verus!
