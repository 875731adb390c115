//! Allocators and the capacity arithmetic of allocated buffers.
//!
//! An allocator is described by the number of bytes it grants for a request:
//! a fresh allocation of `size` bytes, or the resizing of an allocation of
//! one layout to another. The capacity of a buffer follows
//! from the bytes granted.
use vstd::prelude::*;

use crate::error::StorageError;
use crate::index::{nat_min, Index};
use crate::storage::utils::{array_layout, spec_layout, Layout};

verus! {

/// The low level trait implemented by all supported allocators.
pub trait RawAlloc: Sized {
    /// The bytes granted for a fresh allocation of `size` bytes, or the error.
    spec fn spec_alloc(&self, size: usize) -> Result<usize, StorageError>;

    /// The bytes granted when an allocation made for `old_layout` is resized
    /// to fit `new_layout`, or the error.
    spec fn spec_resize(&self, old_layout: Layout, new_layout: Layout) -> Result<usize, StorageError>;

    /// The allocator handed to a new collection spawned from this one, if any.
    spec fn spec_duplicate(&self) -> Option<Self>;

    /// A grant never falls short of the request.
    proof fn lemma_grant_covers(&self, old_layout: Layout, new_layout: Layout)
        ensures
            self.spec_alloc(new_layout.size) matches Ok(n) ==> n >= new_layout.size,
            self.spec_resize(old_layout, new_layout) matches Ok(n) ==> n >= new_layout.size,
    ;

    /// Try to allocate memory for `layout`, returning the number of bytes granted.
    fn try_alloc(&self, layout: Layout) -> (r: Result<usize, StorageError>)
        ensures
            r == self.spec_alloc(layout.size),
    ;

    /// Try to resize an allocation made for `old_layout` to fit `new_layout`,
    /// returning the number of bytes granted.
    fn try_resize(&self, old_layout: Layout, new_layout: Layout) -> (r: Result<
        usize,
        StorageError,
    >)
        ensures
            r == self.spec_resize(old_layout, new_layout),
    ;

    /// Produce an allocator instance for a new collection, if supported.
    fn try_duplicate(&self) -> (r: Option<Self>)
        ensures
            r == self.spec_duplicate(),
    ;
}

/// A trait implemented by allocators supporting a default instance.
pub trait RawAllocDefault: RawAlloc {
    /// The default instance.
    spec fn spec_default() -> Self;

    /// Construct the default instance.
    fn new_default() -> (r: Self)
        ensures
            r == Self::spec_default(),
    ;
}

/// The standard heap allocator, which grants exactly the requested size.
#[derive(Debug, Clone, Copy, Default, PartialEq, Eq)]
pub struct Global;

impl RawAlloc for Global {
    open spec fn spec_alloc(&self, size: usize) -> Result<usize, StorageError> {
        Ok(size)
    }

    open spec fn spec_resize(&self, old_layout: Layout, new_layout: Layout) -> Result<
        usize,
        StorageError,
    > {
        Ok(new_layout.size)
    }

    open spec fn spec_duplicate(&self) -> Option<Self> {
        Some(Global)
    }

    proof fn lemma_grant_covers(&self, old_layout: Layout, new_layout: Layout) {
    }

    fn try_alloc(&self, layout: Layout) -> (r: Result<usize, StorageError>) {
        Ok(layout.size)
    }

    fn try_resize(&self, old_layout: Layout, new_layout: Layout) -> (r: Result<
        usize,
        StorageError,
    >) {
        Ok(new_layout.size)
    }

    fn try_duplicate(&self) -> (r: Option<Self>) {
        Some(Global)
    }
}

impl RawAllocDefault for Global {
    open spec fn spec_default() -> Self {
        Global
    }

    fn new_default() -> (r: Self) {
        Global
    }
}

/// An allocator backed by a fixed storage buffer: it cannot allocate, and an
/// existing buffer can only be reused for a request that fits within it.
#[derive(Debug, Default, PartialEq, Eq)]
pub struct FixedAlloc;

impl RawAlloc for FixedAlloc {
    open spec fn spec_alloc(&self, size: usize) -> Result<usize, StorageError> {
        Err(StorageError::CapacityLimit)
    }

    open spec fn spec_resize(&self, old_layout: Layout, new_layout: Layout) -> Result<
        usize,
        StorageError,
    > {
        if old_layout.align != new_layout.align || new_layout.size > old_layout.size {
            Err(StorageError::CapacityLimit)
        } else {
            Ok(old_layout.size)
        }
    }

    open spec fn spec_duplicate(&self) -> Option<Self> {
        None
    }

    proof fn lemma_grant_covers(&self, old_layout: Layout, new_layout: Layout) {
    }

    fn try_alloc(&self, layout: Layout) -> (r: Result<usize, StorageError>) {
        Err(StorageError::CapacityLimit)
    }

    fn try_resize(&self, old_layout: Layout, new_layout: Layout) -> (r: Result<
        usize,
        StorageError,
    >) {
        if old_layout.align != new_layout.align || new_layout.size > old_layout.size {
            Err(StorageError::CapacityLimit)
        } else {
            Ok(old_layout.size)
        }
    }

    fn try_duplicate(&self) -> (r: Option<Self>) {
        None
    }
}

/// An allocator which may represent either a fixed allocation or a dynamic
/// allocation with an allocator instance `A`. Every new request is served by `A`.
#[derive(Debug)]
pub struct SpillAlloc<A> {
    /// The allocator that serves requests beyond the fixed buffer.
    pub alloc: A,
}

impl<A: RawAlloc> SpillAlloc<A> {
    /// The allocator that serves requests beyond the fixed buffer.
    pub open spec fn inner(&self) -> A {
        self.alloc
    }

    /// Wrap an allocator to serve requests beyond a fixed buffer.
    pub fn new(alloc: A) -> (r: Self)
        ensures
            r.inner() == alloc,
    {
        SpillAlloc { alloc }
    }
}

impl<A: RawAlloc> RawAlloc for SpillAlloc<A> {
    open spec fn spec_alloc(&self, size: usize) -> Result<usize, StorageError> {
        self.inner().spec_alloc(size)
    }

    /// Resizing always moves into a fresh allocation from the inner allocator.
    open spec fn spec_resize(&self, old_layout: Layout, new_layout: Layout) -> Result<
        usize,
        StorageError,
    > {
        self.inner().spec_alloc(new_layout.size)
    }

    open spec fn spec_duplicate(&self) -> Option<Self> {
        match self.inner().spec_duplicate() {
            Some(a) => Some(SpillAlloc { alloc: a }),
            None => None,
        }
    }

    proof fn lemma_grant_covers(&self, old_layout: Layout, new_layout: Layout) {
        self.inner().lemma_grant_covers(old_layout, new_layout);
    }

    fn try_alloc(&self, layout: Layout) -> (r: Result<usize, StorageError>) {
        self.alloc.try_alloc(layout)
    }

    fn try_resize(&self, old_layout: Layout, new_layout: Layout) -> (r: Result<
        usize,
        StorageError,
    >) {
        self.alloc.try_alloc(new_layout)
    }

    fn try_duplicate(&self) -> (r: Option<Self>) {
        match self.alloc.try_duplicate() {
            Some(a) => Some(SpillAlloc { alloc: a }),
            None => None,
        }
    }
}

impl<A: RawAllocDefault> RawAllocDefault for SpillAlloc<A> {
    open spec fn spec_default() -> Self {
        SpillAlloc { alloc: A::spec_default() }
    }

    fn new_default() -> (r: Self) {
        SpillAlloc { alloc: A::new_default() }
    }
}

/// The grants of an allocator that allocates via `A` and wipes every buffer
/// it releases: a resize always takes a fresh grant, so that no stale copy
/// outlives a wiped buffer. Only the grants are modelled: a vector
/// configured with this allocator keeps its items in an ordinary heap
/// vector, and that memory is not wiped.
#[derive(Debug, Default, Clone, Copy)]
pub struct ZeroizingAlloc<A>(pub A);

impl<A: RawAlloc> RawAlloc for ZeroizingAlloc<A> {
    open spec fn spec_alloc(&self, size: usize) -> Result<usize, StorageError> {
        self.0.spec_alloc(size)
    }

    open spec fn spec_resize(&self, old_layout: Layout, new_layout: Layout) -> Result<
        usize,
        StorageError,
    > {
        self.0.spec_alloc(new_layout.size)
    }

    open spec fn spec_duplicate(&self) -> Option<Self> {
        match self.0.spec_duplicate() {
            Some(a) => Some(ZeroizingAlloc(a)),
            None => None,
        }
    }

    proof fn lemma_grant_covers(&self, old_layout: Layout, new_layout: Layout) {
        self.0.lemma_grant_covers(old_layout, new_layout);
    }

    fn try_alloc(&self, layout: Layout) -> (r: Result<usize, StorageError>) {
        self.0.try_alloc(layout)
    }

    fn try_resize(&self, old_layout: Layout, new_layout: Layout) -> (r: Result<
        usize,
        StorageError,
    >) {
        self.0.try_alloc(new_layout)
    }

    fn try_duplicate(&self) -> (r: Option<Self>) {
        match self.0.try_duplicate() {
            Some(a) => Some(ZeroizingAlloc(a)),
            None => None,
        }
    }
}

impl<A: RawAllocDefault> RawAllocDefault for ZeroizingAlloc<A> {
    open spec fn spec_default() -> Self {
        ZeroizingAlloc(A::spec_default())
    }

    fn new_default() -> (r: Self) {
        ZeroizingAlloc(A::new_default())
    }
}

/// The capacity carried by a result, as a natural number.
pub open spec fn index_result<I: Index>(r: Result<I, StorageError>) -> Result<nat, StorageError> {
    match r {
        Ok(c) => Ok(c.as_nat()),
        Err(e) => Err(e),
    }
}

/// The capacity of a buffer of `bytes` bytes for items of `elem_size` bytes,
/// limited to `max`; zero-sized items always reach the limit.
pub open spec fn spec_capacity_for_bytes(bytes: nat, elem_size: nat, max: nat) -> nat {
    if elem_size > 0 {
        nat_min(bytes / elem_size, max)
    } else {
        max
    }
}

/// The capacity of a buffer of `bytes` bytes for items of type `T`, counted by index `I`.
pub fn capacity_for_bytes<T, I: Index>(bytes: usize) -> (r: I)
    ensures
        r.as_nat() == spec_capacity_for_bytes(
            bytes as nat,
            vstd::layout::size_of::<T>(),
            I::max_usize(),
        ),
{
    let t_size: usize = core::mem::size_of::<T>();
    proof {
        I::lemma_max_bounds();
    }
    let max: usize = I::max_value();
    if t_size > 0 {
        let per: usize = bytes / t_size;
        if per <= max {
            I::from_usize(per)
        } else {
            I::from_usize(max)
        }
    } else {
        I::from_usize(max)
    }
}

/// The capacity that results from a grant of `granted` bytes for a request
/// of `requested` bytes meant to hold `cap` items: a grant of another size
/// redefines the capacity unless the request was exact.
pub open spec fn spec_granted_capacity(
    granted: usize,
    requested: usize,
    cap: nat,
    exact: bool,
    elem_size: nat,
    max: nat,
) -> nat {
    if !exact && requested != granted {
        spec_capacity_for_bytes(granted as nat, elem_size, max)
    } else {
        cap
    }
}

/// The capacity of a fresh allocation for `cap` items from `alloc`.
pub open spec fn fat_alloc_result<A: RawAlloc>(
    alloc: A,
    elem_size: nat,
    elem_align: nat,
    cap: nat,
    exact: bool,
    max: nat,
) -> Result<nat, StorageError> {
    match spec_layout(elem_size, elem_align, cap) {
        Err(e) => Err(e),
        Ok(layout) => match alloc.spec_alloc(layout.size) {
            Err(e) => Err(e),
            Ok(granted) => Ok(
                spec_granted_capacity(granted, layout.size, cap, exact, elem_size, max),
            ),
        },
    }
}

/// The capacity of a buffer of `old_cap` items after it is resized to hold
/// `new_cap` items: a capacity of zero releases the buffer, an empty buffer
/// is allocated afresh, and an existing one is resized.
pub open spec fn fat_resize_result<A: RawAlloc>(
    alloc: A,
    elem_size: nat,
    elem_align: nat,
    old_cap: nat,
    new_cap: nat,
    exact: bool,
    max: nat,
) -> Result<nat, StorageError> {
    if new_cap == 0 {
        Ok(0)
    } else if old_cap == 0 {
        fat_alloc_result(alloc, elem_size, elem_align, new_cap, exact, max)
    } else {
        match spec_layout(elem_size, elem_align, new_cap) {
            Err(e) => Err(e),
            Ok(new_layout) => match spec_layout(elem_size, elem_align, old_cap) {
                Err(e) => Err(e),
                Ok(old_layout) => match alloc.spec_resize(old_layout, new_layout) {
                    Err(e) => Err(e),
                    Ok(granted) => Ok(
                        spec_granted_capacity(
                            granted,
                            new_layout.size,
                            new_cap,
                            exact,
                            elem_size,
                            max,
                        ),
                    ),
                },
            },
        }
    }
}

/// A grant that covers a request for `cap` items yields a capacity of at least `cap`,
/// and exactly `cap` for an exact request.
pub proof fn lemma_granted_capacity_covers(
    granted: usize,
    requested: usize,
    cap: nat,
    exact: bool,
    elem_size: nat,
    max: nat,
)
    requires
        requested == cap * elem_size,
        granted >= requested,
        cap <= max,
    ensures
        spec_granted_capacity(granted, requested, cap, exact, elem_size, max) >= cap,
        spec_granted_capacity(granted, requested, cap, exact, elem_size, max) <= max,
        exact ==> spec_granted_capacity(granted, requested, cap, exact, elem_size, max) == cap,
{
    if elem_size > 0 {
        assert(cap <= granted as nat / elem_size) by (nonlinear_arith)
            requires
                elem_size > 0,
                granted >= cap * elem_size,
        ;
    }
}

/// Allocate afresh for `cap` items of type `T`, returning the resulting capacity.
pub fn fat_alloc<T, I: Index, A: RawAlloc>(alloc: &A, cap: I, exact: bool) -> (r: Result<
    I,
    StorageError,
>)
    ensures
        index_result(r) == fat_alloc_result(
            *alloc,
            vstd::layout::size_of::<T>(),
            vstd::layout::align_of::<T>(),
            cap.as_nat(),
            exact,
            I::max_usize(),
        ),
{
    let layout = match array_layout::<T>(cap.to_usize()) {
        Ok(l) => l,
        Err(e) => return Err(e),
    };
    let granted: usize = match alloc.try_alloc(layout) {
        Ok(g) => g,
        Err(e) => return Err(e),
    };
    if !exact && layout.size != granted {
        Ok(capacity_for_bytes::<T, I>(granted))
    } else {
        Ok(cap)
    }
}

/// Resize a buffer of `old_cap` items of type `T` to hold `new_cap` items,
/// returning the resulting capacity.
pub fn fat_resize<T, I: Index, A: RawAlloc>(alloc: &A, old_cap: I, new_cap: I, exact: bool) -> (r:
    Result<I, StorageError>)
    ensures
        index_result(r) == fat_resize_result(
            *alloc,
            vstd::layout::size_of::<T>(),
            vstd::layout::align_of::<T>(),
            old_cap.as_nat(),
            new_cap.as_nat(),
            exact,
            I::max_usize(),
        ),
{
    if new_cap.to_usize() == 0 {
        return Ok(new_cap);
    }
    if old_cap.to_usize() == 0 {
        return fat_alloc::<T, I, A>(alloc, new_cap, exact);
    }
    let new_layout = match array_layout::<T>(new_cap.to_usize()) {
        Ok(l) => l,
        Err(e) => return Err(e),
    };
    let old_layout = match array_layout::<T>(old_cap.to_usize()) {
        Ok(l) => l,
        Err(e) => return Err(e),
    };
    let granted: usize = match alloc.try_resize(old_layout, new_layout) {
        Ok(g) => g,
        Err(e) => return Err(e),
    };
    if !exact && new_layout.size != granted {
        Ok(capacity_for_bytes::<T, I>(granted))
    } else {
        Ok(new_cap)
    }
}

} // verus!

verus! {

/// The capacity derived from a grant of `bytes` bytes never holds more items
/// than fit in those bytes.
pub proof fn law_capacity_fits_bytes(bytes: nat, elem_size: nat, max: nat)
    requires
        elem_size > 0,
    ensures
        spec_capacity_for_bytes(bytes, elem_size, max) * elem_size <= bytes,
{
    let per = bytes / elem_size;
    assert(per * elem_size <= bytes) by (nonlinear_arith)
        requires
            elem_size > 0,
            per == bytes / elem_size,
    ;
    if max < per {
        assert(max * elem_size <= per * elem_size) by (nonlinear_arith)
            requires
                max < per,
                elem_size > 0,
        ;
    }
}

/// A buffer held by a fixed allocator never grows: resizing a buffer of
/// non-zero-sized items yields at most the capacity it already had.
pub proof fn law_fixed_never_grows(
    elem_size: nat,
    elem_align: nat,
    old_cap: nat,
    new_cap: nat,
    exact: bool,
    max: nat,
)
    requires
        elem_size > 0,
        old_cap <= max,
    ensures
        fat_resize_result(FixedAlloc, elem_size, elem_align, old_cap, new_cap, exact, max) matches Ok(
            c,
        ) ==> c <= old_cap,
{
    if new_cap > 0 && old_cap > 0 {
        if let Ok(new_layout) = spec_layout(elem_size, elem_align, new_cap) {
            if let Ok(old_layout) = spec_layout(elem_size, elem_align, old_cap) {
                if new_layout.size <= old_layout.size {
                    assert(new_cap <= old_cap) by (nonlinear_arith)
                        requires
                            new_cap * elem_size <= old_cap * elem_size,
                            elem_size > 0,
                    ;
                    assert((old_cap * elem_size) / elem_size == old_cap) by (nonlinear_arith)
                        requires
                            elem_size > 0,
                    ;
                }
            }
        }
    }
}

} // verus!
