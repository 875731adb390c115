//! `Vec` configuration types and trait definitions.
//!
//! A configuration fixes the index type counting items, the growth strategy
//! and the allocator of a `Vec`, and decides the capacity that each request
//! for a new or resized buffer yields.
use core::marker::PhantomData;
use vstd::prelude::*;

use crate::error::StorageError;
use crate::index::{Grow, GrowDoubling, GrowExact, Index};
use crate::storage::allocator::{
    fat_alloc, fat_alloc_result, fat_resize, fat_resize_result, index_result,
    lemma_granted_capacity_covers, spec_granted_capacity, FixedAlloc, Global, RawAlloc,
    RawAllocDefault, SpillAlloc,
};
use crate::storage::fixed::{
    alignment_padding, spec_alignment_padding, ArrayStorage, ByteStorage, Inline, SpillStorage,
    Thin,
};
use crate::storage::utils::{
    array_layout, layout_aligned_bytes, spec_layout, spec_layout_aligned_bytes,
};

use super::buffer::{header_layout, thin_resize, thin_resize_result};

verus! {

/// The allocator and capacity carried by a buffer result, with the capacity
/// as a natural number.
pub open spec fn buffer_result<A, I: Index>(r: Result<(A, I), StorageError>) -> Result<
    (A, nat),
    StorageError,
> {
    match r {
        Ok((a, c)) => Ok((a, c.as_nat())),
        Err(e) => Err(e),
    }
}

/// A request for `cap` items yields a capacity within `cap..=max`, exactly `cap` when exact.
pub open spec fn capacity_covers(r: Result<nat, StorageError>, cap: nat, exact: bool, max: nat) -> bool {
    r matches Ok(c) ==> (cap <= c <= max && (exact ==> c == cap))
}

/// A resize from `old_cap` to `cap` items yields a capacity within
/// `cap..=max`; an exact request yields exactly `cap`, except that a shrink
/// may be declined, keeping the current capacity `old_cap`.
pub open spec fn resize_covers(
    r: Result<nat, StorageError>,
    old_cap: nat,
    cap: nat,
    exact: bool,
    max: nat,
) -> bool {
    r matches Ok(c) ==> (cap <= c <= max && (exact ==> (c == cap || (cap <= old_cap && c
        == old_cap))))
}

/// Like `capacity_covers`, for a result that also carries an allocator.
pub open spec fn buffer_covers<A>(
    r: Result<(A, nat), StorageError>,
    cap: nat,
    exact: bool,
    max: nat,
) -> bool {
    r matches Ok((_a, c)) ==> (cap <= c <= max && (exact ==> c == cap))
}

/// The capacity of a fresh allocation from `alloc`, paired with that allocator.
pub open spec fn fat_buffer_result<A: RawAlloc>(
    alloc: A,
    elem_size: nat,
    elem_align: nat,
    cap: nat,
    exact: bool,
    max: nat,
) -> Result<(A, nat), StorageError> {
    match fat_alloc_result(alloc, elem_size, elem_align, cap, exact, max) {
        Ok(c) => Ok((alloc, c)),
        Err(e) => Err(e),
    }
}

/// A fresh allocation covers its request.
pub proof fn lemma_fat_alloc_covers<A: RawAlloc>(
    alloc: A,
    elem_size: nat,
    elem_align: nat,
    cap: nat,
    exact: bool,
    max: nat,
)
    requires
        cap <= max,
    ensures
        capacity_covers(fat_alloc_result(alloc, elem_size, elem_align, cap, exact, max), cap, exact, max),
        buffer_covers(fat_buffer_result(alloc, elem_size, elem_align, cap, exact, max), cap, exact, max),
{
    if let Ok(layout) = spec_layout(elem_size, elem_align, cap) {
        alloc.lemma_grant_covers(layout, layout);
        if let Ok(g) = alloc.spec_alloc(layout.size) {
            lemma_granted_capacity_covers(g, layout.size, cap, exact, elem_size, max);
        }
    }
}

/// A resize covers its request.
pub proof fn lemma_fat_resize_covers<A: RawAlloc>(
    alloc: A,
    elem_size: nat,
    elem_align: nat,
    old_cap: nat,
    cap: nat,
    exact: bool,
    max: nat,
)
    requires
        cap <= max,
    ensures
        capacity_covers(fat_resize_result(alloc, elem_size, elem_align, old_cap, cap, exact, max), cap, exact, max),
{
    if cap == 0 {
    } else if old_cap == 0 {
        lemma_fat_alloc_covers(alloc, elem_size, elem_align, cap, exact, max);
    } else if let Ok(new_layout) = spec_layout(elem_size, elem_align, cap) {
        if let Ok(old_layout) = spec_layout(elem_size, elem_align, old_cap) {
            alloc.lemma_grant_covers(old_layout, new_layout);
            if let Ok(g) = alloc.spec_resize(old_layout, new_layout) {
                lemma_granted_capacity_covers(g, new_layout.size, cap, exact, elem_size, max);
            }
        }
    }
}

/// How the buffers of a configuration are allocated: the allocator that
/// each buffer holds, and the capacity that each allocation or resize
/// yields. Buffers either keep their header beside the allocation (any
/// allocator) or within it (`Thin`).
pub trait VecAllocHandle {
    /// The allocator held by each buffer.
    type RawAlloc: RawAlloc;

    /// The capacity of a fresh buffer for `cap` items of `elem_size` bytes
    /// and alignment `elem_align`, for a header of the given size and
    /// alignment and an index type counting to `max`.
    spec fn spec_handle_alloc(
        alloc: Self::RawAlloc,
        header: (nat, nat),
        elem_size: nat,
        elem_align: nat,
        cap: nat,
        exact: bool,
        max: nat,
    ) -> Result<nat, StorageError>;

    /// The capacity after a buffer of `old_cap` items is resized to hold
    /// `new_cap` items.
    spec fn spec_handle_resize(
        alloc: Self::RawAlloc,
        header: (nat, nat),
        elem_size: nat,
        elem_align: nat,
        old_cap: nat,
        new_cap: nat,
        exact: bool,
        max: nat,
    ) -> Result<nat, StorageError>;

    /// Each successful allocation or resize covers its request.
    proof fn lemma_handle_covers(
        alloc: Self::RawAlloc,
        header: (nat, nat),
        elem_size: nat,
        elem_align: nat,
        old_cap: nat,
        cap: nat,
        exact: bool,
        max: nat,
    )
        requires
            cap <= max,
        ensures
            capacity_covers(
                Self::spec_handle_alloc(alloc, header, elem_size, elem_align, cap, exact, max),
                cap,
                exact,
                max,
            ),
            capacity_covers(
                Self::spec_handle_resize(
                    alloc,
                    header,
                    elem_size,
                    elem_align,
                    old_cap,
                    cap,
                    exact,
                    max,
                ),
                cap,
                exact,
                max,
            ),
    ;

    /// Allocate a buffer for `cap` items of type `T`, counted by `I`.
    fn handle_alloc<T, I: Index>(alloc: &Self::RawAlloc, cap: I, exact: bool) -> (r: Result<
        I,
        StorageError,
    >)
        ensures
            index_result(r) == Self::spec_handle_alloc(
                *alloc,
                header_layout::<I>(),
                vstd::layout::size_of::<T>(),
                vstd::layout::align_of::<T>(),
                cap.as_nat(),
                exact,
                I::max_usize(),
            ),
    ;

    /// Resize a buffer of `old_cap` items of type `T` to hold `new_cap` items.
    fn handle_resize<T, I: Index>(
        alloc: &Self::RawAlloc,
        old_cap: I,
        new_cap: I,
        exact: bool,
    ) -> (r: Result<I, StorageError>)
        ensures
            index_result(r) == Self::spec_handle_resize(
                *alloc,
                header_layout::<I>(),
                vstd::layout::size_of::<T>(),
                vstd::layout::align_of::<T>(),
                old_cap.as_nat(),
                new_cap.as_nat(),
                exact,
                I::max_usize(),
            ),
    ;
}

/// Buffers of an allocator keep their header beside the allocation.
impl<A: RawAlloc> VecAllocHandle for A {
    type RawAlloc = A;

    open spec fn spec_handle_alloc(
        alloc: A,
        header: (nat, nat),
        elem_size: nat,
        elem_align: nat,
        cap: nat,
        exact: bool,
        max: nat,
    ) -> Result<nat, StorageError> {
        fat_alloc_result(alloc, elem_size, elem_align, cap, exact, max)
    }

    open spec fn spec_handle_resize(
        alloc: A,
        header: (nat, nat),
        elem_size: nat,
        elem_align: nat,
        old_cap: nat,
        new_cap: nat,
        exact: bool,
        max: nat,
    ) -> Result<nat, StorageError> {
        fat_resize_result(alloc, elem_size, elem_align, old_cap, new_cap, exact, max)
    }

    proof fn lemma_handle_covers(
        alloc: A,
        header: (nat, nat),
        elem_size: nat,
        elem_align: nat,
        old_cap: nat,
        cap: nat,
        exact: bool,
        max: nat,
    ) {
        lemma_fat_alloc_covers(alloc, elem_size, elem_align, cap, exact, max);
        lemma_fat_resize_covers(alloc, elem_size, elem_align, old_cap, cap, exact, max);
    }

    fn handle_alloc<T, I: Index>(alloc: &A, cap: I, exact: bool) -> (r: Result<I, StorageError>) {
        fat_alloc::<T, I, A>(alloc, cap, exact)
    }

    fn handle_resize<T, I: Index>(alloc: &A, old_cap: I, new_cap: I, exact: bool) -> (r: Result<
        I,
        StorageError,
    >) {
        fat_resize::<T, I, A>(alloc, old_cap, new_cap, exact)
    }
}

/// Thin buffers keep their header within an allocation on the global heap.
impl VecAllocHandle for Thin {
    type RawAlloc = Global;

    open spec fn spec_handle_alloc(
        alloc: Global,
        header: (nat, nat),
        elem_size: nat,
        elem_align: nat,
        cap: nat,
        exact: bool,
        max: nat,
    ) -> Result<nat, StorageError> {
        thin_resize_result(header, elem_size, elem_align, 0, cap)
    }

    open spec fn spec_handle_resize(
        alloc: Global,
        header: (nat, nat),
        elem_size: nat,
        elem_align: nat,
        old_cap: nat,
        new_cap: nat,
        exact: bool,
        max: nat,
    ) -> Result<nat, StorageError> {
        thin_resize_result(header, elem_size, elem_align, old_cap, new_cap)
    }

    proof fn lemma_handle_covers(
        alloc: Global,
        header: (nat, nat),
        elem_size: nat,
        elem_align: nat,
        old_cap: nat,
        cap: nat,
        exact: bool,
        max: nat,
    ) {
    }

    fn handle_alloc<T, I: Index>(alloc: &Global, cap: I, exact: bool) -> (r: Result<
        I,
        StorageError,
    >) {
        thin_resize::<T, I>(I::zero(), cap)
    }

    fn handle_resize<T, I: Index>(alloc: &Global, old_cap: I, new_cap: I, exact: bool) -> (r:
        Result<I, StorageError>) {
        thin_resize::<T, I>(old_cap, new_cap)
    }
}

/// The allocator and capacity of a buffer spawned from `alloc`: the
/// allocator is duplicated and a fresh buffer is allocated from it.
pub open spec fn handle_spawn_result<H: VecAllocHandle>(
    alloc: H::RawAlloc,
    header: (nat, nat),
    elem_size: nat,
    elem_align: nat,
    cap: nat,
    exact: bool,
    max: nat,
) -> Result<(H::RawAlloc, nat), StorageError> {
    match alloc.spec_duplicate() {
        None => Err(StorageError::Unsupported),
        Some(a) => match H::spec_handle_alloc(a, header, elem_size, elem_align, cap, exact, max) {
            Ok(c) => Ok((a, c)),
            Err(e) => Err(e),
        },
    }
}

/// Spawn a buffer for `cap` items of type `T` from the allocator `alloc`.
fn handle_spawn<T, I: Index, H: VecAllocHandle>(alloc: &H::RawAlloc, cap: I, exact: bool) -> (r:
    Result<(H::RawAlloc, I), StorageError>)
    ensures
        buffer_result(r) == handle_spawn_result::<H>(
            *alloc,
            header_layout::<I>(),
            vstd::layout::size_of::<T>(),
            vstd::layout::align_of::<T>(),
            cap.as_nat(),
            exact,
            I::max_usize(),
        ),
{
    match alloc.try_duplicate() {
        None => Err(StorageError::Unsupported),
        Some(a) => match H::handle_alloc::<T, I>(&a, cap, exact) {
            Ok(c) => Ok((a, c)),
            Err(e) => Err(e),
        },
    }
}

/// A spawned buffer covers its request.
proof fn lemma_handle_spawn_covers<H: VecAllocHandle>(
    alloc: H::RawAlloc,
    header: (nat, nat),
    elem_size: nat,
    elem_align: nat,
    cap: nat,
    exact: bool,
    max: nat,
)
    requires
        cap <= max,
    ensures
        buffer_covers(
            handle_spawn_result::<H>(alloc, header, elem_size, elem_align, cap, exact, max),
            cap,
            exact,
            max,
        ),
{
    if let Some(a) = alloc.spec_duplicate() {
        H::lemma_handle_covers(a, header, elem_size, elem_align, 0, cap, exact, max);
    }
}

/// Define the associated types and buffer behavior of `Vec` instances.
pub trait VecConfig: Sized {
    /// The index type used to define the capacity and length.
    type Index: Index;

    /// The growth strategy.
    type Grow: Grow;

    /// The allocator instance type held by each buffer.
    type Alloc: RawAlloc;

    /// The capacity after a buffer of `old_cap` items is resized to hold
    /// `new_cap` items of `elem_size` bytes and alignment `elem_align`.
    spec fn spec_resize(
        alloc: Self::Alloc,
        elem_size: nat,
        elem_align: nat,
        old_cap: nat,
        new_cap: nat,
        exact: bool,
    ) -> Result<nat, StorageError>;

    /// Each successful request yields at least the requested capacity, within
    /// the range of the index type, and exactly the requested one when exact,
    /// except that a shrink may be declined.
    proof fn lemma_config_covers(
        alloc: Self::Alloc,
        elem_size: nat,
        elem_align: nat,
        old_cap: nat,
        cap: nat,
        exact: bool,
    )
        requires
            cap <= Self::Index::max_usize(),
        ensures
            resize_covers(
                Self::spec_resize(alloc, elem_size, elem_align, old_cap, cap, exact),
                old_cap,
                cap,
                exact,
                Self::Index::max_usize(),
            ),
    ;

    /// Resize a buffer of `old_cap` items of type `T` to hold `new_cap` items.
    fn resize_buffer<T>(
        alloc: &Self::Alloc,
        old_cap: Self::Index,
        new_cap: Self::Index,
        exact: bool,
    ) -> (r: Result<Self::Index, StorageError>)
        ensures
            index_result(r) == Self::spec_resize(
                *alloc,
                vstd::layout::size_of::<T>(),
                vstd::layout::align_of::<T>(),
                old_cap.as_nat(),
                new_cap.as_nat(),
                exact,
            ),
    ;
}

/// Support creation of new `Vec` buffer instances from an existing instance.
pub trait VecConfigSpawn: VecConfig {
    /// The allocator and capacity of a new buffer for `cap` items spawned
    /// from a buffer holding the allocator `alloc`.
    spec fn spec_spawn(
        alloc: Self::Alloc,
        elem_size: nat,
        elem_align: nat,
        cap: nat,
        exact: bool,
    ) -> Result<(Self::Alloc, nat), StorageError>;

    /// A spawned buffer covers its request.
    proof fn lemma_spawn_covers(alloc: Self::Alloc, elem_size: nat, elem_align: nat, cap: nat, exact: bool)
        requires
            cap <= Self::Index::max_usize(),
        ensures
            buffer_covers(
                Self::spec_spawn(alloc, elem_size, elem_align, cap, exact),
                cap,
                exact,
                Self::Index::max_usize(),
            ),
    ;

    /// Create a new buffer for `cap` items of type `T` from the allocator of an existing one.
    fn spawn_buffer<T>(alloc: &Self::Alloc, cap: Self::Index, exact: bool) -> (r: Result<
        (Self::Alloc, Self::Index),
        StorageError,
    >)
        ensures
            buffer_result(r) == Self::spec_spawn(
                *alloc,
                vstd::layout::size_of::<T>(),
                vstd::layout::align_of::<T>(),
                cap.as_nat(),
                exact,
            ),
    ;
}

/// Every allocator is a `Vec` configuration, counting with `usize` and
/// growing by doubling.
impl<A: RawAlloc> VecConfig for A {
    type Index = usize;

    type Grow = GrowDoubling;

    type Alloc = A;

    open spec fn spec_resize(
        alloc: A,
        elem_size: nat,
        elem_align: nat,
        old_cap: nat,
        new_cap: nat,
        exact: bool,
    ) -> Result<nat, StorageError> {
        fat_resize_result(alloc, elem_size, elem_align, old_cap, new_cap, exact, usize::MAX as nat)
    }

    proof fn lemma_config_covers(
        alloc: A,
        elem_size: nat,
        elem_align: nat,
        old_cap: nat,
        cap: nat,
        exact: bool,
    ) {
        lemma_fat_resize_covers(alloc, elem_size, elem_align, old_cap, cap, exact, usize::MAX as nat);
    }

    fn resize_buffer<T>(alloc: &A, old_cap: usize, new_cap: usize, exact: bool) -> (r: Result<
        usize,
        StorageError,
    >) {
        fat_resize::<T, usize, A>(alloc, old_cap, new_cap, exact)
    }
}

impl<A: RawAlloc> VecConfigSpawn for A {
    open spec fn spec_spawn(
        alloc: A,
        elem_size: nat,
        elem_align: nat,
        cap: nat,
        exact: bool,
    ) -> Result<(A, nat), StorageError> {
        handle_spawn_result::<A>(
            alloc,
            header_layout::<usize>(),
            elem_size,
            elem_align,
            cap,
            exact,
            usize::MAX as nat,
        )
    }

    proof fn lemma_spawn_covers(
        alloc: A,
        elem_size: nat,
        elem_align: nat,
        cap: nat,
        exact: bool,
    ) {
        lemma_handle_spawn_covers::<A>(
            alloc,
            header_layout::<usize>(),
            elem_size,
            elem_align,
            cap,
            exact,
            usize::MAX as nat,
        );
    }

    fn spawn_buffer<T>(alloc: &A, cap: usize, exact: bool) -> (r: Result<
        (A, usize),
        StorageError,
    >) {
        handle_spawn::<T, usize, A>(alloc, cap, exact)
    }
}

/// The outcome of requesting an inline buffer of `N` items for `cap` items:
/// a smaller request is served unless it is exact.
pub open spec fn inline_result(n: nat, cap: nat, exact: bool) -> Result<nat, StorageError> {
    if (!exact && cap < n) || cap == n {
        Ok(n)
    } else {
        Err(StorageError::CapacityLimit)
    }
}

/// Try to obtain the inline buffer of `N` items for a request of `cap` items.
fn inline_try_for_capacity(n: usize, cap: usize, exact: bool) -> (r: Result<usize, StorageError>)
    ensures
        index_result(r) == inline_result(n as nat, cap as nat, exact),
{
    if (!exact && cap < n) || cap == n {
        Ok(n)
    } else {
        Err(StorageError::CapacityLimit)
    }
}

/// The outcome of resizing an inline buffer of `N` items currently offering
/// `old_cap` to `new_cap` items: a shrink keeps the buffer as it is (inline
/// storage cannot release room); any other request is served as a new one.
pub open spec fn inline_resize_result(n: nat, old_cap: nat, new_cap: nat, exact: bool) -> Result<
    nat,
    StorageError,
> {
    if new_cap <= old_cap && old_cap <= n {
        Ok(old_cap)
    } else {
        inline_result(n, new_cap, exact)
    }
}

/// Resize an inline buffer of `N` items currently offering `old_cap` items.
fn inline_try_resize(n: usize, old_cap: usize, new_cap: usize, exact: bool) -> (r: Result<
    usize,
    StorageError,
>)
    ensures
        index_result(r) == inline_resize_result(n as nat, old_cap as nat, new_cap as nat, exact),
{
    if new_cap <= old_cap && old_cap <= n {
        Ok(old_cap)
    } else {
        inline_try_for_capacity(n, new_cap, exact)
    }
}

/// Inline storage holds exactly `N` items within the collection and never grows.
impl<const N: usize> VecConfig for Inline<N> {
    type Index = usize;

    type Grow = GrowExact;

    type Alloc = FixedAlloc;

    open spec fn spec_resize(
        alloc: FixedAlloc,
        elem_size: nat,
        elem_align: nat,
        old_cap: nat,
        new_cap: nat,
        exact: bool,
    ) -> Result<nat, StorageError> {
        inline_resize_result(N as nat, old_cap, new_cap, exact)
    }

    proof fn lemma_config_covers(
        alloc: FixedAlloc,
        elem_size: nat,
        elem_align: nat,
        old_cap: nat,
        cap: nat,
        exact: bool,
    ) {
    }

    fn resize_buffer<T>(alloc: &FixedAlloc, old_cap: usize, new_cap: usize, exact: bool) -> (r:
        Result<usize, StorageError>) {
        inline_try_resize(N, old_cap, new_cap, exact)
    }
}

impl<const N: usize> VecConfigSpawn for Inline<N> {
    open spec fn spec_spawn(
        alloc: FixedAlloc,
        elem_size: nat,
        elem_align: nat,
        cap: nat,
        exact: bool,
    ) -> Result<(FixedAlloc, nat), StorageError> {
        match inline_result(N as nat, cap, exact) {
            Ok(c) => Ok((FixedAlloc, c)),
            Err(e) => Err(e),
        }
    }

    proof fn lemma_spawn_covers(
        alloc: FixedAlloc,
        elem_size: nat,
        elem_align: nat,
        cap: nat,
        exact: bool,
    ) {
    }

    fn spawn_buffer<T>(alloc: &FixedAlloc, cap: usize, exact: bool) -> (r: Result<
        (FixedAlloc, usize),
        StorageError,
    >) {
        match inline_try_for_capacity(N, cap, exact) {
            Ok(c) => Ok((FixedAlloc, c)),
            Err(e) => Err(e),
        }
    }
}

/// Thin vectors keep their header within an allocation on the global heap,
/// counting with `usize` and growing by doubling.
impl VecConfig for Thin {
    type Index = usize;

    type Grow = GrowDoubling;

    type Alloc = Global;

    open spec fn spec_resize(
        alloc: Global,
        elem_size: nat,
        elem_align: nat,
        old_cap: nat,
        new_cap: nat,
        exact: bool,
    ) -> Result<nat, StorageError> {
        <Thin as VecAllocHandle>::spec_handle_resize(
            alloc,
            header_layout::<usize>(),
            elem_size,
            elem_align,
            old_cap,
            new_cap,
            exact,
            usize::MAX as nat,
        )
    }

    proof fn lemma_config_covers(
        alloc: Global,
        elem_size: nat,
        elem_align: nat,
        old_cap: nat,
        cap: nat,
        exact: bool,
    ) {
    }

    fn resize_buffer<T>(alloc: &Global, old_cap: usize, new_cap: usize, exact: bool) -> (r:
        Result<usize, StorageError>) {
        <Thin as VecAllocHandle>::handle_resize::<T, usize>(alloc, old_cap, new_cap, exact)
    }
}

impl VecConfigSpawn for Thin {
    open spec fn spec_spawn(
        alloc: Global,
        elem_size: nat,
        elem_align: nat,
        cap: nat,
        exact: bool,
    ) -> Result<(Global, nat), StorageError> {
        handle_spawn_result::<Thin>(
            alloc,
            header_layout::<usize>(),
            elem_size,
            elem_align,
            cap,
            exact,
            usize::MAX as nat,
        )
    }

    proof fn lemma_spawn_covers(
        alloc: Global,
        elem_size: nat,
        elem_align: nat,
        cap: nat,
        exact: bool,
    ) {
        lemma_handle_spawn_covers::<Thin>(
            alloc,
            header_layout::<usize>(),
            elem_size,
            elem_align,
            cap,
            exact,
            usize::MAX as nat,
        );
    }

    fn spawn_buffer<T>(alloc: &Global, cap: usize, exact: bool) -> (r: Result<
        (Global, usize),
        StorageError,
    >) {
        handle_spawn::<T, usize, Thin>(alloc, cap, exact)
    }
}

/// Parameterize `Vec` with an allocation handle (an allocator, or `Thin`),
/// a custom index type and a growth behavior.
#[derive(Debug)]
pub struct Custom<H: VecAllocHandle, I = usize, G = GrowExact> {
    /// The allocator instance.
    pub alloc: H::RawAlloc,
    /// Marks the index type and growth behavior.
    pub _pd: PhantomData<(I, G)>,
}

impl<H: VecAllocHandle, I: Index, G: Grow> Custom<H, I, G> {
    /// A custom configuration allocating from `alloc`.
    pub fn new(alloc: H::RawAlloc) -> (r: Self)
        ensures
            r.alloc == alloc,
    {
        Custom { alloc, _pd: PhantomData }
    }
}

impl<H: VecAllocHandle, I: Index, G: Grow> Default for Custom<H, I, G> where
    H::RawAlloc: RawAllocDefault,
 {
    /// A custom configuration allocating from the default allocator instance.
    fn default() -> (r: Self)
        ensures
            r.alloc == <H::RawAlloc as RawAllocDefault>::spec_default(),
    {
        Custom { alloc: <H::RawAlloc as RawAllocDefault>::new_default(), _pd: PhantomData }
    }
}

impl<H: VecAllocHandle, I: Index, G: Grow> VecConfig for Custom<H, I, G> {
    type Index = I;

    type Grow = G;

    type Alloc = H::RawAlloc;

    open spec fn spec_resize(
        alloc: H::RawAlloc,
        elem_size: nat,
        elem_align: nat,
        old_cap: nat,
        new_cap: nat,
        exact: bool,
    ) -> Result<nat, StorageError> {
        H::spec_handle_resize(
            alloc,
            header_layout::<I>(),
            elem_size,
            elem_align,
            old_cap,
            new_cap,
            exact,
            I::max_usize(),
        )
    }

    proof fn lemma_config_covers(
        alloc: H::RawAlloc,
        elem_size: nat,
        elem_align: nat,
        old_cap: nat,
        cap: nat,
        exact: bool,
    ) {
        H::lemma_handle_covers(
            alloc,
            header_layout::<I>(),
            elem_size,
            elem_align,
            old_cap,
            cap,
            exact,
            I::max_usize(),
        );
    }

    fn resize_buffer<T>(alloc: &H::RawAlloc, old_cap: I, new_cap: I, exact: bool) -> (r: Result<
        I,
        StorageError,
    >) {
        H::handle_resize::<T, I>(alloc, old_cap, new_cap, exact)
    }
}

impl<H: VecAllocHandle, I: Index, G: Grow> VecConfigSpawn for Custom<H, I, G> {
    open spec fn spec_spawn(
        alloc: H::RawAlloc,
        elem_size: nat,
        elem_align: nat,
        cap: nat,
        exact: bool,
    ) -> Result<(H::RawAlloc, nat), StorageError> {
        handle_spawn_result::<H>(
            alloc,
            header_layout::<I>(),
            elem_size,
            elem_align,
            cap,
            exact,
            I::max_usize(),
        )
    }

    proof fn lemma_spawn_covers(
        alloc: H::RawAlloc,
        elem_size: nat,
        elem_align: nat,
        cap: nat,
        exact: bool,
    ) {
        lemma_handle_spawn_covers::<H>(
            alloc,
            header_layout::<I>(),
            elem_size,
            elem_align,
            cap,
            exact,
            I::max_usize(),
        );
    }

    fn spawn_buffer<T>(alloc: &H::RawAlloc, cap: I, exact: bool) -> (r: Result<
        (H::RawAlloc, I),
        StorageError,
    >) {
        handle_spawn::<T, I, H>(alloc, cap, exact)
    }
}

} // verus!

verus! {

/// Support creation of new `Vec` instances without an allocation target.
pub trait VecConfigNew: VecConfigSpawn {
    /// The allocator and capacity of an empty buffer.
    spec fn spec_empty() -> (Self::Alloc, nat);

    /// The allocator and capacity of a new buffer for `cap` items of
    /// `elem_size` bytes and alignment `elem_align`.
    spec fn spec_try_new(elem_size: nat, elem_align: nat, cap: nat, exact: bool) -> Result<
        (Self::Alloc, nat),
        StorageError,
    >;

    /// A new buffer covers its request, and the empty buffer lies within the index range.
    proof fn lemma_new_covers(elem_size: nat, elem_align: nat, cap: nat, exact: bool)
        requires
            cap <= Self::Index::max_usize(),
        ensures
            buffer_covers(
                Self::spec_try_new(elem_size, elem_align, cap, exact),
                cap,
                exact,
                Self::Index::max_usize(),
            ),
            Self::spec_empty().1 <= Self::Index::max_usize(),
    ;

    /// Construct an empty buffer.
    fn empty_buffer() -> (r: (Self::Alloc, Self::Index))
        ensures
            r.0 == Self::spec_empty().0,
            r.1.as_nat() == Self::spec_empty().1,
    ;

    /// Try to create a new buffer for `cap` items of type `T`.
    fn try_new_buffer<T>(cap: Self::Index, exact: bool) -> (r: Result<
        (Self::Alloc, Self::Index),
        StorageError,
    >)
        ensures
            buffer_result(r) == Self::spec_try_new(
                vstd::layout::size_of::<T>(),
                vstd::layout::align_of::<T>(),
                cap.as_nat(),
                exact,
            ),
    ;
}

impl<A: RawAllocDefault> VecConfigNew for A {
    open spec fn spec_empty() -> (A, nat) {
        (A::spec_default(), 0)
    }

    open spec fn spec_try_new(elem_size: nat, elem_align: nat, cap: nat, exact: bool) -> Result<
        (A, nat),
        StorageError,
    > {
        handle_new_result::<A>(
            A::spec_default(),
            header_layout::<usize>(),
            elem_size,
            elem_align,
            cap,
            exact,
            usize::MAX as nat,
        )
    }

    proof fn lemma_new_covers(elem_size: nat, elem_align: nat, cap: nat, exact: bool) {
        lemma_fat_resize_covers(
            A::spec_default(),
            elem_size,
            elem_align,
            0,
            cap,
            exact,
            usize::MAX as nat,
        );
    }

    fn empty_buffer() -> (r: (A, usize)) {
        (A::new_default(), 0)
    }

    fn try_new_buffer<T>(cap: usize, exact: bool) -> (r: Result<(A, usize), StorageError>) {
        handle_new::<T, usize, A>(A::new_default(), cap, exact)
    }
}

/// The allocator and capacity of a buffer first left empty, then resized
/// to `cap` items.
pub open spec fn handle_new_result<H: VecAllocHandle>(
    alloc: H::RawAlloc,
    header: (nat, nat),
    elem_size: nat,
    elem_align: nat,
    cap: nat,
    exact: bool,
    max: nat,
) -> Result<(H::RawAlloc, nat), StorageError> {
    match H::spec_handle_resize(alloc, header, elem_size, elem_align, 0, cap, exact, max) {
        Ok(c) => Ok((alloc, c)),
        Err(e) => Err(e),
    }
}

/// Create a buffer in `alloc` for `cap` items of type `T`, starting from an
/// empty one.
fn handle_new<T, I: Index, H: VecAllocHandle>(alloc: H::RawAlloc, cap: I, exact: bool) -> (r:
    Result<(H::RawAlloc, I), StorageError>)
    ensures
        buffer_result(r) == handle_new_result::<H>(
            alloc,
            header_layout::<I>(),
            vstd::layout::size_of::<T>(),
            vstd::layout::align_of::<T>(),
            cap.as_nat(),
            exact,
            I::max_usize(),
        ),
{
    let zero: I = I::zero();
    match H::handle_resize::<T, I>(&alloc, zero, cap, exact) {
        Ok(c) => Ok((alloc, c)),
        Err(e) => Err(e),
    }
}

impl VecConfigNew for Thin {
    open spec fn spec_empty() -> (Global, nat) {
        (Global, 0)
    }

    open spec fn spec_try_new(elem_size: nat, elem_align: nat, cap: nat, exact: bool) -> Result<
        (Global, nat),
        StorageError,
    > {
        handle_new_result::<Thin>(
            Global,
            header_layout::<usize>(),
            elem_size,
            elem_align,
            cap,
            exact,
            usize::MAX as nat,
        )
    }

    proof fn lemma_new_covers(elem_size: nat, elem_align: nat, cap: nat, exact: bool) {
    }

    fn empty_buffer() -> (r: (Global, usize)) {
        (Global, 0)
    }

    fn try_new_buffer<T>(cap: usize, exact: bool) -> (r: Result<(Global, usize), StorageError>) {
        handle_new::<T, usize, Thin>(Global, cap, exact)
    }
}

impl<H: VecAllocHandle, I: Index, G: Grow> VecConfigNew for Custom<H, I, G> where
    H::RawAlloc: RawAllocDefault,
 {
    open spec fn spec_empty() -> (H::RawAlloc, nat) {
        (<H::RawAlloc as RawAllocDefault>::spec_default(), 0)
    }

    open spec fn spec_try_new(elem_size: nat, elem_align: nat, cap: nat, exact: bool) -> Result<
        (H::RawAlloc, nat),
        StorageError,
    > {
        handle_new_result::<H>(
            <H::RawAlloc as RawAllocDefault>::spec_default(),
            header_layout::<I>(),
            elem_size,
            elem_align,
            cap,
            exact,
            I::max_usize(),
        )
    }

    proof fn lemma_new_covers(elem_size: nat, elem_align: nat, cap: nat, exact: bool) {
        I::lemma_max_bounds();
        H::lemma_handle_covers(
            <H::RawAlloc as RawAllocDefault>::spec_default(),
            header_layout::<I>(),
            elem_size,
            elem_align,
            0,
            cap,
            exact,
            I::max_usize(),
        );
    }

    fn empty_buffer() -> (r: (H::RawAlloc, I)) {
        (<H::RawAlloc as RawAllocDefault>::new_default(), I::zero())
    }

    fn try_new_buffer<T>(cap: I, exact: bool) -> (r: Result<(H::RawAlloc, I), StorageError>) {
        handle_new::<T, I, H>(<H::RawAlloc as RawAllocDefault>::new_default(), cap, exact)
    }
}

impl<const N: usize> VecConfigNew for Inline<N> {
    open spec fn spec_empty() -> (FixedAlloc, nat) {
        (FixedAlloc, N as nat)
    }

    open spec fn spec_try_new(elem_size: nat, elem_align: nat, cap: nat, exact: bool) -> Result<
        (FixedAlloc, nat),
        StorageError,
    > {
        match inline_result(N as nat, cap, exact) {
            Ok(c) => Ok((FixedAlloc, c)),
            Err(e) => Err(e),
        }
    }

    proof fn lemma_new_covers(elem_size: nat, elem_align: nat, cap: nat, exact: bool) {
    }

    fn empty_buffer() -> (r: (FixedAlloc, usize)) {
        (FixedAlloc, N)
    }

    fn try_new_buffer<T>(cap: usize, exact: bool) -> (r: Result<(FixedAlloc, usize), StorageError>) {
        match inline_try_for_capacity(N, cap, exact) {
            Ok(c) => Ok((FixedAlloc, c)),
            Err(e) => Err(e),
        }
    }
}

/// Support creation of a new `Vec` instance within an allocation target.
pub trait VecNewIn<T>: Sized {
    /// The associated `Vec` configuration type.
    type Config: VecConfig;

    /// The allocator and capacity of a new buffer for `cap` items of type `T` in this target.
    spec fn spec_new_in(self, cap: nat, exact: bool) -> Result<
        (<Self::Config as VecConfig>::Alloc, nat),
        StorageError,
    >;

    /// A new buffer covers its request.
    proof fn lemma_new_in_covers(self, cap: nat, exact: bool)
        requires
            cap <= <Self::Config as VecConfig>::Index::max_usize(),
        ensures
            buffer_covers(
                self.spec_new_in(cap, exact),
                cap,
                exact,
                <Self::Config as VecConfig>::Index::max_usize(),
            ),
    ;

    /// Try to create a new buffer for `cap` items given this allocation target.
    fn vec_buffer_try_new_in(self, cap: <Self::Config as VecConfig>::Index, exact: bool) -> (r:
        Result<
            (<Self::Config as VecConfig>::Alloc, <Self::Config as VecConfig>::Index),
            StorageError,
        >)
        ensures
            buffer_result(r) == self.spec_new_in(cap.as_nat(), exact),
    ;
}

impl<T, A: RawAlloc> VecNewIn<T> for A {
    type Config = A;

    open spec fn spec_new_in(self, cap: nat, exact: bool) -> Result<(A, nat), StorageError> {
        fat_buffer_result(
            self,
            vstd::layout::size_of::<T>(),
            vstd::layout::align_of::<T>(),
            cap,
            exact,
            usize::MAX as nat,
        )
    }

    proof fn lemma_new_in_covers(self, cap: nat, exact: bool) {
        lemma_fat_alloc_covers(
            self,
            vstd::layout::size_of::<T>(),
            vstd::layout::align_of::<T>(),
            cap,
            exact,
            usize::MAX as nat,
        );
    }

    fn vec_buffer_try_new_in(self, cap: usize, exact: bool) -> (r: Result<
        (A, usize),
        StorageError,
    >) {
        match fat_alloc::<T, usize, A>(&self, cap, exact) {
            Ok(c) => Ok((self, c)),
            Err(e) => Err(e),
        }
    }
}

/// The capacity of a vector placed in an array buffer of `n` items: the whole
/// buffer unless an exact capacity was requested.
pub open spec fn array_buffer_result(n: nat, cap: nat, exact: bool) -> Result<nat, StorageError> {
    if cap > n {
        Err(StorageError::CapacityLimit)
    } else if exact {
        Ok(cap)
    } else {
        Ok(n)
    }
}

impl<'a, T, const N: usize> VecNewIn<T> for &'a mut ArrayStorage<T, N> {
    type Config = FixedAlloc;

    open spec fn spec_new_in(self, cap: nat, exact: bool) -> Result<(FixedAlloc, nat), StorageError> {
        match array_buffer_result(N as nat, cap, exact) {
            Ok(c) => Ok((FixedAlloc, c)),
            Err(e) => Err(e),
        }
    }

    proof fn lemma_new_in_covers(self, cap: nat, exact: bool) {
    }

    fn vec_buffer_try_new_in(self, cap: usize, exact: bool) -> (r: Result<
        (FixedAlloc, usize),
        StorageError,
    >) {
        if cap > N {
            Err(StorageError::CapacityLimit)
        } else if exact {
            Ok((FixedAlloc, cap))
        } else {
            Ok((FixedAlloc, N))
        }
    }
}

/// The capacity of a vector of items of `elem_size` bytes and alignment
/// `elem_align` placed in a byte buffer of `len` bytes whose first `offset`
/// bytes are skipped for alignment: the whole remainder of the buffer unless
/// an exact capacity was requested.
pub open spec fn byte_buffer_result(
    len: nat,
    offset: nat,
    elem_size: nat,
    elem_align: nat,
    cap: nat,
    exact: bool,
) -> Result<nat, StorageError> {
    match spec_layout(elem_size, elem_align, cap) {
        Err(e) => Err(e),
        Ok(layout) => match spec_layout_aligned_bytes(len, offset, layout.size as nat) {
            Err(e) => Err(e),
            Ok(usable) => Ok(
                spec_granted_capacity(
                    usable as usize,
                    layout.size,
                    cap,
                    exact,
                    elem_size,
                    usize::MAX as nat,
                ),
            ),
        },
    }
}

proof fn lemma_byte_buffer_covers(
    len: nat,
    offset: nat,
    elem_size: nat,
    elem_align: nat,
    cap: nat,
    exact: bool,
)
    requires
        len <= usize::MAX,
        cap <= usize::MAX,
    ensures
        capacity_covers(
            byte_buffer_result(len, offset, elem_size, elem_align, cap, exact),
            cap,
            exact,
            usize::MAX as nat,
        ),
{
    if let Ok(layout) = spec_layout(elem_size, elem_align, cap) {
        if let Ok(usable) = spec_layout_aligned_bytes(len, offset, layout.size as nat) {
            lemma_granted_capacity_covers(
                usable as usize,
                layout.size,
                cap,
                exact,
                elem_size,
                usize::MAX as nat,
            );
        }
    }
}

/// Place a vector of `cap` items of type `T` in a byte buffer of `len` bytes
/// whose first `offset` bytes are skipped for alignment.
fn byte_buffer<T>(len: usize, offset: usize, cap: usize, exact: bool) -> (r: Result<
    usize,
    StorageError,
>)
    ensures
        index_result(r) == byte_buffer_result(
            len as nat,
            offset as nat,
            vstd::layout::size_of::<T>(),
            vstd::layout::align_of::<T>(),
            cap as nat,
            exact,
        ),
{
    let layout = match array_layout::<T>(cap) {
        Ok(l) => l,
        Err(e) => return Err(e),
    };
    let usable: usize = match layout_aligned_bytes(len, offset, layout) {
        Ok(n) => n,
        Err(e) => return Err(e),
    };
    if !exact && layout.size != usable {
        Ok(crate::storage::allocator::capacity_for_bytes::<T, usize>(usable))
    } else {
        Ok(cap)
    }
}

impl<'a, T, U, const N: usize> VecNewIn<T> for &'a mut ByteStorage<U, N> {
    type Config = FixedAlloc;

    open spec fn spec_new_in(self, cap: nat, exact: bool) -> Result<(FixedAlloc, nat), StorageError> {
        match byte_buffer_result(
            N as nat,
            spec_alignment_padding(vstd::layout::align_of::<U>(), vstd::layout::align_of::<T>()),
            vstd::layout::size_of::<T>(),
            vstd::layout::align_of::<T>(),
            cap,
            exact,
        ) {
            Ok(c) => Ok((FixedAlloc, c)),
            Err(e) => Err(e),
        }
    }

    proof fn lemma_new_in_covers(self, cap: nat, exact: bool) {
        lemma_byte_buffer_covers(
            N as nat,
            spec_alignment_padding(vstd::layout::align_of::<U>(), vstd::layout::align_of::<T>()),
            vstd::layout::size_of::<T>(),
            vstd::layout::align_of::<T>(),
            cap,
            exact,
        );
    }

    fn vec_buffer_try_new_in(self, cap: usize, exact: bool) -> (r: Result<
        (FixedAlloc, usize),
        StorageError,
    >) {
        let offset: usize = alignment_padding::<U, T>();
        match byte_buffer::<T>(N, offset, cap, exact) {
            Ok(c) => Ok((FixedAlloc, c)),
            Err(e) => Err(e),
        }
    }
}

impl<'a, T, A: RawAlloc, const N: usize> VecNewIn<T> for SpillStorage<&'a mut ArrayStorage<T, N>, A> {
    type Config = SpillAlloc<A>;

    open spec fn spec_new_in(self, cap: nat, exact: bool) -> Result<
        (SpillAlloc<A>, nat),
        StorageError,
    > {
        if cap > N {
            fat_buffer_result(
                SpillAlloc { alloc: self.alloc },
                vstd::layout::size_of::<T>(),
                vstd::layout::align_of::<T>(),
                cap,
                exact,
                usize::MAX as nat,
            )
        } else {
            match array_buffer_result(N as nat, cap, exact) {
                Ok(c) => Ok((SpillAlloc { alloc: self.alloc }, c)),
                Err(e) => Err(e),
            }
        }
    }

    proof fn lemma_new_in_covers(self, cap: nat, exact: bool) {
        lemma_fat_alloc_covers(
            SpillAlloc { alloc: self.alloc },
            vstd::layout::size_of::<T>(),
            vstd::layout::align_of::<T>(),
            cap,
            exact,
            usize::MAX as nat,
        );
    }

    fn vec_buffer_try_new_in(self, cap: usize, exact: bool) -> (r: Result<
        (SpillAlloc<A>, usize),
        StorageError,
    >) {
        let spill = SpillAlloc::new(self.alloc);
        if cap > N {
            match fat_alloc::<T, usize, SpillAlloc<A>>(&spill, cap, exact) {
                Ok(c) => Ok((spill, c)),
                Err(e) => Err(e),
            }
        } else if exact {
            Ok((spill, cap))
        } else {
            Ok((spill, N))
        }
    }
}

/// The capacity of a vector placed in a byte buffer of `len` bytes whose
/// first `offset` bytes are skipped for alignment, spilling into `alloc`
/// when the buffer cannot hold the request.
pub open spec fn spill_bytes_result<A: RawAlloc>(
    alloc: A,
    len: nat,
    offset: nat,
    elem_size: nat,
    elem_align: nat,
    cap: nat,
    exact: bool,
) -> Result<nat, StorageError> {
    match spec_layout(elem_size, elem_align, cap) {
        Err(e) => Err(e),
        Ok(layout) => if spec_layout_aligned_bytes(len, offset, layout.size as nat) is Ok {
            byte_buffer_result(len, offset, elem_size, elem_align, cap, exact)
        } else {
            fat_alloc_result(alloc, elem_size, elem_align, cap, exact, usize::MAX as nat)
        },
    }
}

impl<'a, T, U, A: RawAlloc, const N: usize> VecNewIn<T> for SpillStorage<
    &'a mut ByteStorage<U, N>,
    A,
> {
    type Config = SpillAlloc<A>;

    open spec fn spec_new_in(self, cap: nat, exact: bool) -> Result<
        (SpillAlloc<A>, nat),
        StorageError,
    > {
        match spill_bytes_result(
            self.alloc,
            N as nat,
            spec_alignment_padding(vstd::layout::align_of::<U>(), vstd::layout::align_of::<T>()),
            vstd::layout::size_of::<T>(),
            vstd::layout::align_of::<T>(),
            cap,
            exact,
        ) {
            Ok(c) => Ok((SpillAlloc { alloc: self.alloc }, c)),
            Err(e) => Err(e),
        }
    }

    proof fn lemma_new_in_covers(self, cap: nat, exact: bool) {
        lemma_byte_buffer_covers(
            N as nat,
            spec_alignment_padding(vstd::layout::align_of::<U>(), vstd::layout::align_of::<T>()),
            vstd::layout::size_of::<T>(),
            vstd::layout::align_of::<T>(),
            cap,
            exact,
        );
        lemma_fat_alloc_covers(
            self.alloc,
            vstd::layout::size_of::<T>(),
            vstd::layout::align_of::<T>(),
            cap,
            exact,
            usize::MAX as nat,
        );
    }

    fn vec_buffer_try_new_in(self, cap: usize, exact: bool) -> (r: Result<
        (SpillAlloc<A>, usize),
        StorageError,
    >) {
        let offset: usize = alignment_padding::<U, T>();
        let layout = match array_layout::<T>(cap) {
            Ok(l) => l,
            Err(e) => return Err(e),
        };
        let spill = SpillAlloc::new(self.alloc);
        match layout_aligned_bytes(N, offset, layout) {
            Ok(_) => match byte_buffer::<T>(N, offset, cap, exact) {
                Ok(c) => Ok((spill, c)),
                Err(e) => Err(e),
            },
            Err(_) => match fat_alloc::<T, usize, A>(&spill.alloc, cap, exact) {
                Ok(c) => Ok((spill, c)),
                Err(e) => Err(e),
            },
        }
    }
}

impl<T, const N: usize> VecNewIn<T> for Inline<N> {
    type Config = Inline<N>;

    open spec fn spec_new_in(self, cap: nat, exact: bool) -> Result<(FixedAlloc, nat), StorageError> {
        if cap > N || (cap < N && exact) {
            Err(StorageError::CapacityLimit)
        } else {
            Ok((FixedAlloc, N as nat))
        }
    }

    proof fn lemma_new_in_covers(self, cap: nat, exact: bool) {
    }

    fn vec_buffer_try_new_in(self, cap: usize, exact: bool) -> (r: Result<
        (FixedAlloc, usize),
        StorageError,
    >) {
        if cap > N || (cap < N && exact) {
            Err(StorageError::CapacityLimit)
        } else {
            Ok((FixedAlloc, N))
        }
    }
}

impl<T> VecNewIn<T> for Thin {
    type Config = Thin;

    open spec fn spec_new_in(self, cap: nat, exact: bool) -> Result<(Global, nat), StorageError> {
        match <Thin as VecAllocHandle>::spec_handle_alloc(
            Global,
            header_layout::<usize>(),
            vstd::layout::size_of::<T>(),
            vstd::layout::align_of::<T>(),
            cap,
            exact,
            usize::MAX as nat,
        ) {
            Ok(c) => Ok((Global, c)),
            Err(e) => Err(e),
        }
    }

    proof fn lemma_new_in_covers(self, cap: nat, exact: bool) {
    }

    fn vec_buffer_try_new_in(self, cap: usize, exact: bool) -> (r: Result<
        (Global, usize),
        StorageError,
    >) {
        match <Thin as VecAllocHandle>::handle_alloc::<T, usize>(&Global, cap, exact) {
            Ok(c) => Ok((Global, c)),
            Err(e) => Err(e),
        }
    }
}

impl<T, H: VecAllocHandle, I: Index, G: Grow> VecNewIn<T> for Custom<H, I, G> {
    type Config = Self;

    open spec fn spec_new_in(self, cap: nat, exact: bool) -> Result<(H::RawAlloc, nat), StorageError> {
        match H::spec_handle_alloc(
            self.alloc,
            header_layout::<I>(),
            vstd::layout::size_of::<T>(),
            vstd::layout::align_of::<T>(),
            cap,
            exact,
            I::max_usize(),
        ) {
            Ok(c) => Ok((self.alloc, c)),
            Err(e) => Err(e),
        }
    }

    proof fn lemma_new_in_covers(self, cap: nat, exact: bool) {
        H::lemma_handle_covers(
            self.alloc,
            header_layout::<I>(),
            vstd::layout::size_of::<T>(),
            vstd::layout::align_of::<T>(),
            0,
            cap,
            exact,
            I::max_usize(),
        );
    }

    fn vec_buffer_try_new_in(self, cap: I, exact: bool) -> (r: Result<(H::RawAlloc, I), StorageError>) {
        match H::handle_alloc::<T, I>(&self.alloc, cap, exact) {
            Ok(c) => Ok((self.alloc, c)),
            Err(e) => Err(e),
        }
    }
}

} // verus!
