//! Fixed storage buffers and the strategies built on them.
//!
//! A fixed buffer is described by the room it offers: `ArrayStorage<T, N>`
//! stands for `N` items of type `T`, `ByteStorage<T, N>` for `N` bytes
//! aligned for `T`. Collections created in such a buffer cannot grow beyond
//! it, unless the buffer is paired with an allocator that takes over once
//! the buffer is exhausted (`SpillStorage`). These are capacity models: they
//! hold no memory, and a collection's items are kept on the ordinary heap.
use core::marker::PhantomData;
use vstd::prelude::*;

use crate::storage::allocator::{Global, RawAlloc};

verus! {

/// A storage buffer with room for `N` items of type `T`, as far as capacity
/// goes; it holds no memory itself.
#[derive(Debug, Default)]
pub struct ArrayStorage<T, const N: usize>(pub PhantomData<T>);

/// A storage buffer of `N` bytes, aligned for items of type `T`, as far as
/// capacity goes; it holds no memory itself.
#[derive(Debug, Default)]
pub struct ByteStorage<T, const N: usize>(pub [T; 0]);

/// Create a new array storage buffer for type `T` and maximum capacity `N`.
pub fn array_storage<T, const N: usize>() -> (r: ArrayStorage<T, N>) {
    ArrayStorage(PhantomData)
}

/// Create a new byte storage buffer for a maximum byte capacity `N`.
pub fn byte_storage<const N: usize>() -> (r: ByteStorage<u8, N>) {
    ByteStorage([])
}

/// Create a new byte storage buffer for a maximum byte capacity `N`, with
/// a memory alignment matching type `T`.
pub fn aligned_byte_storage<T, const N: usize>() -> (r: ByteStorage<T, N>) {
    ByteStorage([])
}

/// The leading bytes of a buffer aligned to `buf_align` that may have to be
/// skipped to reach the alignment `align`. Where the address of the buffer
/// is known to suit the items, nothing is skipped; otherwise the largest
/// padding any address may need, `align - 1`, is set aside.
pub open spec fn spec_alignment_padding(buf_align: nat, align: nat) -> nat {
    if align <= buf_align {
        0
    } else {
        (align - 1) as nat
    }
}

/// The leading bytes of the byte buffer `ByteStorage<U, N>` set aside to
/// align items of type `T`.
pub fn alignment_padding<U, T>() -> (r: usize)
    ensures
        r == spec_alignment_padding(vstd::layout::align_of::<U>(), vstd::layout::align_of::<T>()),
{
    vstd::layout::layout_for_type_is_valid::<U>();
    vstd::layout::layout_for_type_is_valid::<T>();
    let buf_align: usize = core::mem::align_of::<U>();
    let align: usize = core::mem::align_of::<T>();
    if align <= buf_align {
        0
    } else {
        align - 1
    }
}

/// A marker type used to indicate the inline allocation strategy: a fixed
/// capacity of `N` items, served without allocation requests.
#[derive(Debug, Default, Copy, Clone, PartialEq, Eq, PartialOrd, Ord)]
pub struct Inline<const N: usize>;

/// A marker type representing the 'thin' allocation strategy, whose
/// capacity follows the layout of one allocation on the global heap holding
/// the collection's header and its items.
#[derive(Debug, Copy, Clone, PartialEq, Eq, PartialOrd, Ord)]
pub struct Thin;

/// An allocation target which consumes the provided fixed storage before
/// deferring to the contained allocator `A` for further allocations.
#[derive(Debug, Default)]
pub struct SpillStorage<I, A> {
    /// The fixed storage used first.
    pub buffer: I,
    /// The allocator used once the fixed storage is exhausted.
    pub alloc: A,
}

impl<I, A: RawAlloc> SpillStorage<I, A> {
    /// Pair a fixed storage buffer with an allocator.
    pub fn new_in(buffer: I, alloc: A) -> (r: Self)
        ensures
            r.buffer == buffer,
            r.alloc == alloc,
    {
        SpillStorage { buffer, alloc }
    }
}

/// Attach an allocator to a fixed allocation buffer. Once the initial
/// buffer is exhausted, additional buffer(s) may be requested from the
/// new allocator instance.
pub trait WithAlloc: Sized {
    /// Consume the buffer, returning a target which spills into the Global allocator.
    fn with_alloc(self) -> (r: SpillStorage<Self, Global>)
        ensures
            r.alloc == Global,
    ;

    /// Consume the buffer, returning a target which spills into the provided
    /// allocator instance `alloc`.
    fn with_alloc_in<A: RawAlloc>(self, alloc: A) -> (r: SpillStorage<Self, A>)
        ensures
            r.alloc == alloc,
    ;
}

impl<'a, T, const N: usize> WithAlloc for &'a mut ArrayStorage<T, N> {
    fn with_alloc(self) -> (r: SpillStorage<Self, Global>)
        ensures
            *r.buffer == *old(self),
            *final(self) == *final(r.buffer),
    {
        SpillStorage::new_in(self, Global)
    }

    fn with_alloc_in<A: RawAlloc>(self, alloc: A) -> (r: SpillStorage<Self, A>) {
        SpillStorage::new_in(self, alloc)
    }
}

impl<'a, T, const N: usize> WithAlloc for &'a mut ByteStorage<T, N> {
    fn with_alloc(self) -> (r: SpillStorage<Self, Global>)
        ensures
            *r.buffer == *old(self),
            *final(self) == *final(r.buffer),
    {
        SpillStorage::new_in(self, Global)
    }

    fn with_alloc_in<A: RawAlloc>(self, alloc: A) -> (r: SpillStorage<Self, A>) {
        SpillStorage::new_in(self, alloc)
    }
}

} // verus!
