//! Support for generic vector structures containing a resizable, contiguous array
//! of items.
//!
//! A `Vec<T, C>` holds a sequence of items together with a capacity. The
//! configuration `C` fixes the index type that counts the items, the growth
//! strategy and the allocator; it decides which capacity each request for
//! storage yields, and which requests fail. The length never exceeds the
//! capacity, and no operation lets the items outgrow it: an operation that
//! needs more room first requests a larger buffer.
//!
//! This is a capacity model. Whatever the configuration, the items are held
//! in a standard `std::vec::Vec` on the ordinary heap; the configuration
//! governs the capacity the vector reports and which requests fail, as the
//! chosen storage would, but it does not place the items in that storage.
use vstd::prelude::*;

use crate::error::{InsertionError, StorageError};
use crate::index::{nat_max, Grow, Index};
use vstd::std_specs::cmp::PartialEqSpec;
use crate::storage::allocator::{Global, RawAlloc};
use crate::storage::utils::spec_min_non_zero_cap;

use self::config::{VecConfig, VecConfigNew, VecConfigSpawn, VecNewIn};

pub mod buffer;
pub mod config;
pub mod drain;
pub mod laws;

pub use self::drain::{Drain, IntoIter, Splice};

verus! {

/// The capacity after a buffer of `cap` items holding `len` items is asked to
/// make room for `additional` more: unchanged when they already fit; a
/// failure when the total count is not representable; otherwise the buffer
/// is resized to what the growth strategy prefers for the total.
pub open spec fn spec_reserve_result<C: VecConfig>(
    alloc: C::Alloc,
    elem_size: nat,
    elem_align: nat,
    len: nat,
    cap: nat,
    additional: nat,
    min_cap: nat,
) -> Result<nat, StorageError> {
    let needed = len + additional;
    if needed > usize::MAX {
        Err(StorageError::CapacityLimit)
    } else if cap >= needed {
        Ok(cap)
    } else if needed > C::Index::max_usize() {
        Err(StorageError::CapacityLimit)
    } else {
        C::spec_resize(
            alloc,
            elem_size,
            elem_align,
            cap,
            C::Grow::spec_next_capacity(cap, needed, min_cap, C::Index::max_usize()),
            false,
        )
    }
}

/// The capacity after a buffer of `cap` items is asked to hold at least
/// `reserve` items in all: unchanged when it already does; otherwise the
/// buffer is resized to hold exactly `reserve` items, never more.
pub open spec fn spec_reserve_exact_result<C: VecConfig>(
    alloc: C::Alloc,
    elem_size: nat,
    elem_align: nat,
    cap: nat,
    reserve: nat,
) -> Result<nat, StorageError> {
    if cap >= reserve {
        Ok(cap)
    } else {
        C::spec_resize(alloc, elem_size, elem_align, cap, reserve, true)
    }
}

/// A successful reservation makes room for the requested items, never
/// shrinks the buffer, and stays within the range of the index type.
pub proof fn lemma_reserve_covers<C: VecConfig>(
    alloc: C::Alloc,
    elem_size: nat,
    elem_align: nat,
    len: nat,
    cap: nat,
    additional: nat,
    min_cap: nat,
)
    requires
        len <= cap <= C::Index::max_usize(),
        min_cap <= 8,
    ensures
        spec_reserve_result::<C>(alloc, elem_size, elem_align, len, cap, additional, min_cap)
            matches Ok(c) ==> (len + additional <= c && cap <= c && c <= C::Index::max_usize()),
{
    let needed = len + additional;
    C::Index::lemma_max_bounds();
    if needed <= usize::MAX && cap < needed && needed <= C::Index::max_usize() {
        C::Grow::lemma_next_capacity_bounds(cap, needed, min_cap, C::Index::max_usize());
        C::lemma_config_covers(
            alloc,
            elem_size,
            elem_align,
            cap,
            C::Grow::spec_next_capacity(cap, needed, min_cap, C::Index::max_usize()),
            false,
        );
    }
}

/// A successful exact reservation holds at least `reserve` items and never
/// shrinks the buffer; when the buffer must grow, it grows to exactly
/// `reserve` items.
pub proof fn lemma_reserve_exact_covers<C: VecConfig>(
    alloc: C::Alloc,
    elem_size: nat,
    elem_align: nat,
    cap: nat,
    reserve: nat,
)
    requires
        cap <= C::Index::max_usize(),
        reserve <= C::Index::max_usize(),
    ensures
        spec_reserve_exact_result::<C>(alloc, elem_size, elem_align, cap, reserve) matches Ok(c)
            ==> c == nat_max(cap, reserve),
{
    if cap < reserve {
        C::lemma_config_covers(alloc, elem_size, elem_align, cap, reserve, true);
    }
}

/// A vector with the capacity of inline storage of `N` items: fixed at `N`,
/// served without any allocation request. Its items are held in the
/// ordinary heap vector behind every `Vec`, not within the handle.
pub type InlineVec<T, const N: usize> = Vec<T, crate::storage::fixed::Inline<N>>;

/// A vector with the capacity of thin storage: one allocation holding a
/// header (capacity and length) followed by the items, whose layout limits
/// the capacity. The handle is not a single pointer: its items are held in
/// the ordinary heap vector behind every `Vec`.
pub type ThinVec<T> = Vec<T, crate::storage::fixed::Thin>;

/// A vector configured with the zeroizing allocator over the global heap.
/// Its capacity follows that allocator's grants; its items are held in the
/// ordinary heap vector behind every `Vec`, which is not wiped.
pub type ZeroizingVec<T> = Vec<T, crate::storage::allocator::ZeroizingAlloc<Global>>;

/// A structure containing a resizable, contiguous array of items, held in a
/// standard vector, together with the capacity and allocator its
/// configuration grants.
pub struct Vec<T, C: VecConfig = Global> {
    items: std::vec::Vec<T>,
    capacity: C::Index,
    alloc: C::Alloc,
}

impl<T, C: VecConfig> View for Vec<T, C> {
    type V = Seq<T>;

    closed spec fn view(&self) -> Seq<T> {
        self.items@
    }
}

impl<T, C: VecConfig> Vec<T, C> {
    /// The number of items the vector can hold without requesting more storage.
    pub closed spec fn spec_capacity(&self) -> nat {
        self.capacity.as_nat()
    }

    /// The allocator instance held by the vector.
    pub closed spec fn spec_allocator(&self) -> C::Alloc {
        self.alloc
    }

    /// The items fit within the capacity, which lies within the range of the index type.
    pub open spec fn wf(&self) -> bool {
        self@.len() <= self.spec_capacity() <= C::Index::max_usize()
    }

    /// The capacity after a request to make room for `additional` more items.
    pub open spec fn reserve_result(&self, additional: nat) -> Result<
        nat,
        StorageError,
    > {
        spec_reserve_result::<C>(
            self.spec_allocator(),
            vstd::layout::size_of::<T>(),
            vstd::layout::align_of::<T>(),
            self@.len(),
            self.spec_capacity(),
            additional,
            spec_min_non_zero_cap::<T>(),
        )
    }

    /// The capacity after a request to hold at least `reserve` items in all,
    /// allocating no more than that.
    pub open spec fn reserve_exact_result(&self, reserve: nat) -> Result<nat, StorageError> {
        spec_reserve_exact_result::<C>(
            self.spec_allocator(),
            vstd::layout::size_of::<T>(),
            vstd::layout::align_of::<T>(),
            self.spec_capacity(),
            reserve,
        )
    }

    /// Whether a request to make room for `additional` more items succeeds.
    pub open spec fn can_reserve(&self, additional: nat) -> bool {
        self.reserve_result(additional) is Ok
    }

    /// The vector holds the same allocator as `other`, and the same capacity.
    pub open spec fn same_buffer(&self, other: &Self) -> bool {
        &&& self.spec_capacity() == other.spec_capacity()
        &&& self.spec_allocator() == other.spec_allocator()
    }

    proof fn lemma_wf_reserve(&self, additional: nat)
        requires
            self.wf(),
        ensures
            self.reserve_result(additional) matches Ok(c) ==> (self@.len() + additional <= c
                && self.spec_capacity() <= c && c <= C::Index::max_usize()),
    {
        lemma_reserve_covers::<C>(
            self.spec_allocator(),
            vstd::layout::size_of::<T>(),
            vstd::layout::align_of::<T>(),
            self@.len(),
            self.spec_capacity(),
            additional,
            spec_min_non_zero_cap::<T>(),
        );
    }
}

impl<T, C: VecConfigNew> Vec<T, C> {
    /// Construct a new, empty `Vec<T, C>`.
    pub fn new() -> (r: Self)
        ensures
            r.wf(),
            r@ == Seq::<T>::empty(),
            r.spec_allocator() == C::spec_empty().0,
            r.spec_capacity() == C::spec_empty().1,
    {
        let (alloc, capacity) = C::empty_buffer();
        proof {
            capacity.lemma_index_bounds();
        }
        Vec { items: std::vec::Vec::new(), capacity, alloc }
    }

    /// Try to construct a new `Vec<T, C>` with a minimum capacity.
    pub fn try_with_capacity(capacity: C::Index) -> (r: Result<Self, StorageError>)
        ensures
            match C::spec_try_new(
                vstd::layout::size_of::<T>(),
                vstd::layout::align_of::<T>(),
                capacity.as_nat(),
                false,
            ) {
                Ok((a, c)) => r matches Ok(v) && v.wf() && v@ == Seq::<T>::empty()
                    && v.spec_allocator() == a && v.spec_capacity() == c,
                Err(e) => r matches Err(e2) && e2 == e,
            },
    {
        proof {
            capacity.lemma_index_bounds();
            C::lemma_new_covers(
                vstd::layout::size_of::<T>(),
                vstd::layout::align_of::<T>(),
                capacity.as_nat(),
                false,
            );
        }
        match C::try_new_buffer::<T>(capacity, false) {
            Ok((alloc, cap)) => Ok(Vec { items: std::vec::Vec::new(), capacity: cap, alloc }),
            Err(e) => Err(e),
        }
    }

    /// Construct a new `Vec<T, C>` with a minimum capacity. The configuration
    /// must be able to provide it.
    pub fn with_capacity(capacity: C::Index) -> (r: Self)
        requires
            C::spec_try_new(
                vstd::layout::size_of::<T>(),
                vstd::layout::align_of::<T>(),
                capacity.as_nat(),
                false,
            ) is Ok,
        ensures
            r.wf(),
            r@ == Seq::<T>::empty(),
            (r.spec_allocator(), r.spec_capacity()) == C::spec_try_new(
                vstd::layout::size_of::<T>(),
                vstd::layout::align_of::<T>(),
                capacity.as_nat(),
                false,
            )->Ok_0,
    {
        match Self::try_with_capacity(capacity) {
            Ok(res) => res,
            Err(_) => vstd::pervasive::unreached(),
        }
    }
}

impl<T, C: VecConfig> Vec<T, C> {
    /// Try to construct a new, empty `Vec<T, C>` in the allocation target
    /// `alloc_in`, with a minimum capacity.
    pub fn try_with_capacity_in<A: VecNewIn<T, Config = C>>(capacity: C::Index, alloc_in: A) -> (r:
        Result<Self, StorageError>)
        ensures
            match alloc_in.spec_new_in(capacity.as_nat(), false) {
                Ok((a, c)) => r matches Ok(v) && v.wf() && v@ == Seq::<T>::empty()
                    && v.spec_allocator() == a && v.spec_capacity() == c,
                Err(e) => r matches Err(e2) && e2 == e,
            },
    {
        proof {
            capacity.lemma_index_bounds();
            alloc_in.lemma_new_in_covers(capacity.as_nat(), false);
        }
        match alloc_in.vec_buffer_try_new_in(capacity, false) {
            Ok((alloc, cap)) => Ok(Vec { items: std::vec::Vec::new(), capacity: cap, alloc }),
            Err(e) => Err(e),
        }
    }

    /// Try to construct a new, empty `Vec<T, C>` in the allocation target `alloc_in`.
    pub fn try_new_in<A: VecNewIn<T, Config = C>>(alloc_in: A) -> (r: Result<Self, StorageError>)
        ensures
            match alloc_in.spec_new_in(0, false) {
                Ok((a, c)) => r matches Ok(v) && v.wf() && v@ == Seq::<T>::empty()
                    && v.spec_allocator() == a && v.spec_capacity() == c,
                Err(e) => r matches Err(e2) && e2 == e,
            },
    {
        Self::try_with_capacity_in(C::Index::zero(), alloc_in)
    }

    /// Construct a new, empty `Vec<T, C>` in the allocation target `alloc_in`,
    /// with a minimum capacity. The target must be able to provide it.
    pub fn with_capacity_in<A: VecNewIn<T, Config = C>>(capacity: C::Index, alloc_in: A) -> (r:
        Self)
        requires
            alloc_in.spec_new_in(capacity.as_nat(), false) is Ok,
        ensures
            r.wf(),
            r@ == Seq::<T>::empty(),
            (r.spec_allocator(), r.spec_capacity()) == alloc_in.spec_new_in(
                capacity.as_nat(),
                false,
            )->Ok_0,
    {
        let ghost spec_r = alloc_in.spec_new_in(capacity.as_nat(), false);
        match Self::try_with_capacity_in(capacity, alloc_in) {
            Ok(res) => res,
            Err(_) => vstd::pervasive::unreached(),
        }
    }

    /// Construct a new, empty `Vec<T, C>` in the allocation target `alloc_in`.
    /// The target must be able to provide an empty buffer.
    pub fn new_in<A: VecNewIn<T, Config = C>>(alloc_in: A) -> (r: Self)
        requires
            alloc_in.spec_new_in(0, false) is Ok,
        ensures
            r.wf(),
            r@ == Seq::<T>::empty(),
            (r.spec_allocator(), r.spec_capacity()) == alloc_in.spec_new_in(0, false)->Ok_0,
    {
        Self::with_capacity_in(C::Index::zero(), alloc_in)
    }

    /// Get a reference to the associated allocator instance.
    pub fn allocator(&self) -> (r: &C::Alloc)
        ensures
            *r == self.spec_allocator(),
    {
        &self.alloc
    }

    /// Access the contained data as a slice reference.
    pub fn as_slice(&self) -> (r: &[T])
        ensures
            r@ == self@,
    {
        self.items.as_slice()
    }

    /// Get the current capacity of the collection. This represents the number
    /// of items which can be contained without requesting more storage.
    pub fn capacity(&self) -> (r: C::Index)
        ensures
            r.as_nat() == self.spec_capacity(),
    {
        self.capacity
    }

    /// Get the current length of the collection.
    pub fn len(&self) -> (r: C::Index)
        requires
            self.wf(),
        ensures
            r.as_nat() == self@.len(),
    {
        C::Index::from_usize(self.items.len())
    }

    /// Determine if the current collection length is zero.
    pub fn is_empty(&self) -> (r: bool)
        ensures
            r == (self@.len() == 0),
    {
        self.items.len() == 0
    }

    fn _try_reserve(&mut self, reserve: usize) -> (r: Result<(), StorageError>)
        requires
            old(self).wf(),
        ensures
            final(self).wf(),
            final(self)@ == old(self)@,
            final(self).spec_allocator() == old(self).spec_allocator(),
            match old(self).reserve_result(reserve as nat) {
                Ok(c) => r is Ok && final(self).spec_capacity() == c,
                Err(e) => r == Err::<(), StorageError>(e) && final(self).spec_capacity()
                    == old(self).spec_capacity(),
            },
    {
        proof {
            self.lemma_wf_reserve(reserve as nat);
            C::Index::lemma_max_bounds();
        }
        let buf_cap: usize = self.capacity.to_usize();
        let len: usize = self.items.len();
        let buf_needed: usize = match len.checked_add(reserve) {
            Some(n) => n,
            None => return Err(StorageError::CapacityLimit),
        };
        if buf_cap >= buf_needed {
            return Ok(());
        }
        let needed: C::Index = match C::Index::try_from_usize(buf_needed) {
            Some(c) => c,
            None => return Err(StorageError::CapacityLimit),
        };
        let capacity: C::Index = C::Grow::next_capacity::<T, C::Index>(self.capacity, needed);
        match C::resize_buffer::<T>(&self.alloc, self.capacity, capacity, false) {
            Ok(c) => {
                self.capacity = c;
                Ok(())
            },
            Err(e) => Err(e),
        }
    }

    /// Try to ensure that the collection has sufficient capacity for `reserve`
    /// more items. Additional capacity may be allocated.
    pub fn try_reserve(&mut self, reserve: C::Index) -> (r: Result<(), StorageError>)
        requires
            old(self).wf(),
        ensures
            final(self).wf(),
            final(self)@ == old(self)@,
            final(self).spec_allocator() == old(self).spec_allocator(),
            match old(self).reserve_result(reserve.as_nat()) {
                Ok(c) => r is Ok && final(self).spec_capacity() == c,
                Err(e) => r == Err::<(), StorageError>(e) && final(self).spec_capacity()
                    == old(self).spec_capacity(),
            },
    {
        self._try_reserve(reserve.to_usize())
    }

    /// Ensure that the collection has sufficient capacity for at least `reserve`
    /// more items. Additional capacity may be allocated. The request must succeed.
    pub fn reserve(&mut self, reserve: C::Index)
        requires
            old(self).wf(),
            old(self).can_reserve(reserve.as_nat()),
        ensures
            final(self).wf(),
            final(self)@ == old(self)@,
            final(self).spec_allocator() == old(self).spec_allocator(),
            final(self).spec_capacity() == old(self).reserve_result(reserve.as_nat())->Ok_0,
    {
        let _ = self.try_reserve(reserve);
    }

    /// Try to ensure that the collection has sufficient capacity for at least
    /// `reserve` items. If additional capacity is required, then the capacity
    /// of the new allocation will not exceed `reserve`.
    pub fn try_reserve_exact(&mut self, reserve: C::Index) -> (r: Result<(), StorageError>)
        requires
            old(self).wf(),
        ensures
            final(self).wf(),
            final(self)@ == old(self)@,
            final(self).spec_allocator() == old(self).spec_allocator(),
            match old(self).reserve_exact_result(reserve.as_nat()) {
                Ok(c) => r is Ok && final(self).spec_capacity() == c,
                Err(e) => r == Err::<(), StorageError>(e) && final(self).spec_capacity()
                    == old(self).spec_capacity(),
            },
    {
        proof {
            reserve.lemma_index_bounds();
            lemma_reserve_exact_covers::<C>(
                self.spec_allocator(),
                vstd::layout::size_of::<T>(),
                vstd::layout::align_of::<T>(),
                self.spec_capacity(),
                reserve.as_nat(),
            );
        }
        if self.capacity.to_usize() >= reserve.to_usize() {
            return Ok(());
        }
        match C::resize_buffer::<T>(&self.alloc, self.capacity, reserve, true) {
            Ok(c) => {
                self.capacity = c;
                Ok(())
            },
            Err(e) => Err(e),
        }
    }

    /// Ensure that the collection has sufficient capacity for at least
    /// `reserve` items. If additional capacity is required, then the capacity
    /// of the new allocation will not exceed `reserve`. The request must
    /// succeed.
    pub fn reserve_exact(&mut self, reserve: C::Index)
        requires
            old(self).wf(),
            old(self).reserve_exact_result(reserve.as_nat()) is Ok,
        ensures
            final(self).wf(),
            final(self)@ == old(self)@,
            final(self).spec_allocator() == old(self).spec_allocator(),
            final(self).spec_capacity() == old(self).reserve_exact_result(reserve.as_nat())->Ok_0,
    {
        let _ = self.try_reserve_exact(reserve);
    }
}


/// Every item of `dst` is a clone of the item of `src` at the same position.
pub open spec fn clones_of<T: Clone>(src: Seq<T>, dst: Seq<T>) -> bool {
    &&& src.len() == dst.len()
    &&& forall|i: int| 0 <= i < src.len() ==> cloned::<T>(#[trigger] src[i], dst[i])
}

/// Every item of `s` is a clone of `elem`.
pub open spec fn all_clones_of<T: Clone>(elem: T, s: Seq<T>) -> bool {
    forall|i: int| 0 <= i < s.len() ==> cloned::<T>(elem, #[trigger] s[i])
}

impl<T, C: VecConfig> Vec<T, C> {
    /// Append a new item to the end of the vector. Room for it must be available
    /// or obtainable.
    pub fn push(&mut self, item: T)
        requires
            old(self).wf(),
            old(self).can_reserve(1),
        ensures
            final(self).wf(),
            final(self)@ == old(self)@.push(item),
            final(self).spec_allocator() == old(self).spec_allocator(),
            final(self).spec_capacity() == old(self).reserve_result(1)->Ok_0,
    {
        proof {
            self.lemma_wf_reserve(1);
        }
        let _ = self._try_reserve(1);
        self.items.push(item);
    }

    /// Try to append a new item to the end of the vector, returning an
    /// `InsertionError<T>` holding the item if room cannot be obtained.
    pub fn try_push(&mut self, item: T) -> (r: Result<(), InsertionError<T>>)
        requires
            old(self).wf(),
        ensures
            final(self).wf(),
            final(self).spec_allocator() == old(self).spec_allocator(),
            match old(self).reserve_result(1) {
                Ok(c) => r is Ok && final(self)@ == old(self)@.push(item)
                    && final(self).spec_capacity() == c,
                Err(e) => r matches Err(ie) && ie.spec_error() == e && ie.spec_value() == item
                    && final(self)@ == old(self)@ && final(self).spec_capacity()
                    == old(self).spec_capacity(),
            },
    {
        proof {
            self.lemma_wf_reserve(1);
        }
        match self._try_reserve(1) {
            Ok(()) => {
                self.items.push(item);
                Ok(())
            },
            Err(e) => Err(InsertionError::new(e, item)),
        }
    }

    /// Append an item if there is spare capacity, otherwise return it. Never
    /// requests more storage.
    pub fn push_within_capacity(&mut self, item: T) -> (r: Result<(), T>)
        requires
            old(self).wf(),
        ensures
            final(self).wf(),
            final(self).same_buffer(old(self)),
            old(self)@.len() < old(self).spec_capacity() ==> r is Ok && final(self)@ == old(self)@.push(item),
            old(self)@.len() >= old(self).spec_capacity() ==> r == Err::<(), T>(item) && final(self)@ == old(self)@,
    {
        if self.items.len() < self.capacity.to_usize() {
            self.items.push(item);
            Ok(())
        } else {
            Err(item)
        }
    }

    /// Remove the last item from the vector, if any, and return it.
    pub fn pop(&mut self) -> (r: Option<T>)
        requires
            old(self).wf(),
        ensures
            final(self).wf(),
            final(self).same_buffer(old(self)),
            old(self)@.len() == 0 ==> r is None && final(self)@ == old(self)@,
            old(self)@.len() > 0 ==> r == Some(old(self)@.last()) && final(self)@ == old(self)@.drop_last(),
    {
        self.items.pop()
    }

    /// Reduce the length of this vector to at most `length`, dropping any items
    /// with an index `>= length`. The capacity of the vector is unchanged.
    pub fn truncate(&mut self, length: C::Index)
        requires
            old(self).wf(),
        ensures
            final(self).wf(),
            final(self).same_buffer(old(self)),
            length.as_nat() >= old(self)@.len() ==> final(self)@ == old(self)@,
            length.as_nat() < old(self)@.len() ==> final(self)@ == old(self)@.subrange(
                0,
                length.as_nat() as int,
            ),
    {
        self.items.truncate(length.to_usize());
    }

    /// Clear the collection, dropping any contained items. The capacity is unchanged.
    pub fn clear(&mut self)
        requires
            old(self).wf(),
        ensures
            final(self).wf(),
            final(self).same_buffer(old(self)),
            final(self)@ == Seq::<T>::empty(),
    {
        self.truncate(C::Index::zero());
    }

    /// Inserts an element at position `index` within the vector, shifting all
    /// elements after it to the right. The index must lie within the vector and
    /// room for the element must be available or obtainable.
    pub fn insert(&mut self, index: C::Index, value: T)
        requires
            old(self).wf(),
            index.as_nat() <= old(self)@.len(),
            old(self).can_reserve(1),
        ensures
            final(self).wf(),
            final(self)@ == old(self)@.insert(index.as_nat() as int, value),
            final(self).spec_allocator() == old(self).spec_allocator(),
            final(self).spec_capacity() == old(self).reserve_result(1)->Ok_0,
    {
        let _ = self.try_insert(index, value);
    }

    /// Try to insert an element at position `index` within the vector, shifting
    /// all elements after it to the right. The index must lie within the vector;
    /// if room cannot be obtained, the element is returned within the error.
    pub fn try_insert(&mut self, index: C::Index, value: T) -> (r: Result<(), InsertionError<T>>)
        requires
            old(self).wf(),
            index.as_nat() <= old(self)@.len(),
        ensures
            final(self).wf(),
            final(self).spec_allocator() == old(self).spec_allocator(),
            match old(self).reserve_result(1) {
                Ok(c) => r is Ok && final(self)@ == old(self)@.insert(index.as_nat() as int, value)
                    && final(self).spec_capacity() == c,
                Err(e) => r matches Err(ie) && ie.spec_error() == e && ie.spec_value() == value
                    && final(self)@ == old(self)@ && final(self).spec_capacity()
                    == old(self).spec_capacity(),
            },
    {
        proof {
            self.lemma_wf_reserve(1);
        }
        match self._try_reserve(1) {
            Ok(()) => {
                self.items.insert(index.to_usize(), value);
                Ok(())
            },
            Err(e) => Err(InsertionError::new(e, value)),
        }
    }

    /// Removes and returns the element at position `index` within the vector,
    /// shifting all elements after it to the left. The index must lie within the vector.
    pub fn remove(&mut self, index: C::Index) -> (r: T)
        requires
            old(self).wf(),
            index.as_nat() < old(self)@.len(),
        ensures
            final(self).wf(),
            final(self).same_buffer(old(self)),
            r == old(self)@[index.as_nat() as int],
            final(self)@ == old(self)@.remove(index.as_nat() as int),
    {
        self.items.remove(index.to_usize())
    }

    /// Removes an element from the vector and returns it. The removed element
    /// is replaced by the last element of the vector. The index must lie within
    /// the vector.
    pub fn swap_remove(&mut self, index: C::Index) -> (r: T)
        requires
            old(self).wf(),
            index.as_nat() < old(self)@.len(),
        ensures
            final(self).wf(),
            final(self).same_buffer(old(self)),
            r == old(self)@[index.as_nat() as int],
            final(self)@ == old(self)@.update(index.as_nat() as int, old(self)@.last()).drop_last(),
    {
        self.items.swap_remove(index.to_usize())
    }

    /// Move every item of `items` to the end of this vector, which must be able
    /// to make room for them.
    pub fn extend(&mut self, items: std::vec::Vec<T>)
        requires
            old(self).wf(),
            old(self).can_reserve(items@.len()),
        ensures
            final(self).wf(),
            final(self)@ == old(self)@ + items@,
            final(self).spec_allocator() == old(self).spec_allocator(),
            final(self).spec_capacity() == old(self).reserve_result(items@.len())->Ok_0,
    {
        proof {
            self.lemma_wf_reserve(items@.len());
        }
        let _ = self._try_reserve(items.len());
        let mut items = items;
        self.items.append(&mut items);
    }

    /// Clone each entry in `items` and push it onto this vector, which must be
    /// able to make room for them.
    pub fn extend_from_slice(&mut self, items: &[T])
        where
            T: Clone,
        requires
            old(self).wf(),
            old(self).can_reserve(items@.len()),
        ensures
            final(self).wf(),
            final(self)@.subrange(0, old(self)@.len() as int) == old(self)@,
            clones_of(items@, final(self)@.subrange(old(self)@.len() as int, final(self)@.len() as int)),
            final(self).spec_allocator() == old(self).spec_allocator(),
            final(self).spec_capacity() == old(self).reserve_result(items@.len())->Ok_0,
    {
        let _ = self.try_extend_from_slice(items);
    }

    /// Try to clone each entry in `items` and push it onto this vector. Room is
    /// obtained up-front, so on failure no items have been appended.
    pub fn try_extend_from_slice(&mut self, items: &[T]) -> (r: Result<(), StorageError>)
        where
            T: Clone,
        requires
            old(self).wf(),
        ensures
            final(self).wf(),
            final(self).spec_allocator() == old(self).spec_allocator(),
            match old(self).reserve_result(items@.len()) {
                Ok(c) => r is Ok && final(self).spec_capacity() == c && final(self)@.subrange(
                    0,
                    old(self)@.len() as int,
                ) == old(self)@ && clones_of(
                    items@,
                    final(self)@.subrange(old(self)@.len() as int, final(self)@.len() as int),
                ),
                Err(e) => r == Err::<(), StorageError>(e) && final(self)@ == old(self)@
                    && final(self).spec_capacity() == old(self).spec_capacity(),
            },
    {
        proof {
            self.lemma_wf_reserve(items@.len());
        }
        match self._try_reserve(items.len()) {
            Ok(()) => {},
            Err(e) => return Err(e),
        }
        self.extend_clones(items);
        Ok(())
    }

    /// Push clones of `items` onto the vector, which already has room for them.
    fn extend_clones(&mut self, items: &[T])
        where
            T: Clone,
        requires
            old(self)@.len() + items@.len() <= old(self).spec_capacity() <= C::Index::max_usize(),
        ensures
            final(self).wf(),
            final(self).same_buffer(old(self)),
            final(self)@.len() == old(self)@.len() + items@.len(),
            final(self)@.subrange(0, old(self)@.len() as int) == old(self)@,
            clones_of(items@, final(self)@.subrange(old(self)@.len() as int, final(self)@.len() as int)),
    {
        let ghost start = self@;
        let mut i: usize = 0;
        while i < items.len()
            invariant
                i <= items@.len(),
                self@.len() == start.len() + i,
                self@.subrange(0, start.len() as int) == start,
                forall|j: int| 0 <= j < i ==> cloned::<T>(#[trigger] items@[j], self@[start.len() + j]),
                start.len() + items@.len() <= self.spec_capacity() <= C::Index::max_usize(),
                self.spec_capacity() == old(self).spec_capacity(),
                self.spec_allocator() == old(self).spec_allocator(),
            decreases items@.len() - i,
        {
            let item = items[i].clone();
            self.items.push(item);
            i = i + 1;
        }
        proof {
            let tail = self@.subrange(start.len() as int, self@.len() as int);
            assert forall|j: int| 0 <= j < items@.len() implies cloned::<T>(#[trigger] items@[j], tail[j]) by {
                assert(tail[j] == self@[start.len() + j]);
            }
        }
    }
}


/// The items of `s` whose matching flag in `keep` is set, in order.
pub open spec fn filter_keep<T>(s: Seq<T>, keep: Seq<bool>) -> Seq<T>
    decreases s.len(),
{
    if s.len() == 0 || keep.len() == 0 {
        Seq::empty()
    } else {
        let prev = filter_keep(s.drop_last(), keep.drop_last());
        if keep.last() {
            prev.push(s.last())
        } else {
            prev
        }
    }
}

impl<T, C: VecConfig> Vec<T, C> {
    /// Move all items of `other` to the end of this vector, leaving `other`
    /// empty. When this vector is empty the two exchange their storage; when
    /// both hold items, this vector must be able to make room for the others.
    pub fn append(&mut self, other: &mut Self)
        requires
            old(self).wf(),
            old(other).wf(),
            old(self)@.len() > 0 && old(other)@.len() > 0 ==> old(self).can_reserve(
                old(other)@.len(),
            ),
        ensures
            final(self).wf(),
            final(other).wf(),
            final(self)@ == old(self)@ + old(other)@,
            final(other)@ == Seq::<T>::empty(),
            old(self)@.len() == 0 ==> final(self).same_buffer(old(other)) && final(other).same_buffer(
                old(self),
            ),
            old(self)@.len() > 0 && old(other)@.len() == 0 ==> final(self).same_buffer(old(self))
                && final(other).same_buffer(old(other)),
            old(self)@.len() > 0 && old(other)@.len() > 0 ==> final(self).spec_allocator() == old(self).spec_allocator() && final(self).spec_capacity() == old(self).reserve_result(
                old(other)@.len())->Ok_0 && final(other).same_buffer(old(other)),
    {
        if self.items.len() == 0 {
            core::mem::swap(self, other);
            proof {
                assert(self@ =~= old(self)@ + old(other)@);
            }
        } else if other.items.len() > 0 {
            proof {
                self.lemma_wf_reserve(other@.len());
            }
            let _ = self._try_reserve(other.items.len());
            self.items.append(&mut other.items);
        } else {
            proof {
                assert(self@ =~= old(self)@ + old(other)@);
            }
        }
    }

    /// Try to clone the elements of `other` and insert them at position `index`,
    /// moving existing elements to the right. The index must lie within the
    /// vector. Room is obtained up-front, so on failure nothing changes.
    pub fn try_insert_slice(&mut self, index: C::Index, other: &[T]) -> (r: Result<(), StorageError>)
        where
            T: Clone,
        requires
            old(self).wf(),
            index.as_nat() <= old(self)@.len(),
        ensures
            final(self).wf(),
            final(self).spec_allocator() == old(self).spec_allocator(),
            other@.len() == 0 ==> r is Ok && final(self)@ == old(self)@ && final(self).spec_capacity()
                == old(self).spec_capacity(),
            other@.len() > 0 ==> match old(self).reserve_result(other@.len()) {
                Ok(c) => r is Ok && final(self).spec_capacity() == c && final(self)@.len() == old(self)@.len() + other@.len() && final(self)@.subrange(0, index.as_nat() as int) == old(self)@.subrange(0, index.as_nat() as int) && clones_of(
                    other@,
                    final(self)@.subrange(
                        index.as_nat() as int,
                        ((index.as_nat() + other@.len()) as int) as int,
                    ),
                ) && final(self)@.subrange(
                    ((index.as_nat() + other@.len()) as int) as int,
                    final(self)@.len() as int,
                ) == old(self)@.subrange(index.as_nat() as int, old(self)@.len() as int),
                Err(e) => r == Err::<(), StorageError>(e) && final(self)@ == old(self)@
                    && final(self).spec_capacity() == old(self).spec_capacity(),
            },
    {
        if other.len() == 0 {
            return Ok(());
        }
        proof {
            self.lemma_wf_reserve(other@.len());
        }
        match self._try_reserve(other.len()) {
            Ok(()) => {},
            Err(e) => return Err(e),
        }
        let ghost mid = self@;
        let mut tail = self.items.split_off(index.to_usize());
        let ghost head = self@;
        let ghost tail_items = tail@;
        self.extend_clones(other);
        let ghost grown = self@;
        self.items.append(&mut tail);
        proof {
            let i = index.as_nat() as int;
            let k = other@.len() as int;
            assert(head.len() == i);
            assert(grown.subrange(i, grown.len() as int).len() == k);
            assert(grown.len() == i + k);
            assert(self@ == grown + tail_items);
            assert(self@.subrange(0, i) =~= grown.subrange(0, i));
            assert(self@.subrange(0, i) =~= head);
            assert(self@.subrange(i, i + k) =~= grown.subrange(i, i + k));
            assert(self@.subrange(i + k, self@.len() as int) =~= tail_items);
            assert(tail_items =~= mid.subrange(i, mid.len() as int));
        }
        Ok(())
    }

    /// Clone the elements of `other` and insert them at position `index`,
    /// moving existing elements to the right. The index must lie within the
    /// vector, which must be able to make room for the elements.
    pub fn insert_slice(&mut self, index: C::Index, other: &[T])
        where
            T: Clone,
        requires
            old(self).wf(),
            index.as_nat() <= old(self)@.len(),
            other@.len() > 0 ==> old(self).can_reserve(other@.len()),
        ensures
            final(self).wf(),
            final(self).spec_allocator() == old(self).spec_allocator(),
            other@.len() == 0 ==> final(self)@ == old(self)@ && final(self).spec_capacity()
                == old(self).spec_capacity(),
            other@.len() > 0 ==> final(self).spec_capacity() == old(self).reserve_result(
                other@.len())->Ok_0,
            final(self)@.len() == old(self)@.len() + other@.len(),
            final(self)@.subrange(0, index.as_nat() as int) == old(self)@.subrange(
                0,
                index.as_nat() as int,
            ),
            clones_of(
                other@,
                final(self)@.subrange(index.as_nat() as int, (index.as_nat() + other@.len()) as int),
            ),
            final(self)@.subrange(((index.as_nat() + other@.len()) as int) as int, final(self)@.len() as int) == old(self)@.subrange(index.as_nat() as int, old(self)@.len() as int),
    {
        let _ = self.try_insert_slice(index, other);
        proof {
            if other@.len() == 0 {
                let i = index.as_nat() as int;
                assert(self@.subrange(i, i) =~= Seq::<T>::empty());
                assert(other@ =~= Seq::<T>::empty());
            }
        }
    }

    /// Try to clone each existing entry in `range` and push it onto this vector.
    /// The range must lie within the vector. Room is obtained up-front, so on
    /// failure nothing changes.
    pub fn try_extend_from_within(&mut self, range: core::ops::Range<C::Index>) -> (r: Result<
        (),
        StorageError,
    >)
        where
            T: Clone,
        requires
            old(self).wf(),
            range.start.as_nat() <= range.end.as_nat() <= old(self)@.len(),
        ensures
            final(self).wf(),
            final(self).spec_allocator() == old(self).spec_allocator(),
            match old(self).reserve_result((range.end.as_nat() - range.start.as_nat()) as nat) {
                Ok(c) => r is Ok && final(self).spec_capacity() == c && final(self)@.subrange(
                    0,
                    old(self)@.len() as int,
                ) == old(self)@ && clones_of(
                    old(self)@.subrange(range.start.as_nat() as int, range.end.as_nat() as int),
                    final(self)@.subrange(old(self)@.len() as int, final(self)@.len() as int),
                ),
                Err(e) => r == Err::<(), StorageError>(e) && final(self)@ == old(self)@
                    && final(self).spec_capacity() == old(self).spec_capacity(),
            },
    {
        let start: usize = range.start.to_usize();
        let end: usize = range.end.to_usize();
        proof {
            self.lemma_wf_reserve((end - start) as nat);
        }
        match self._try_reserve(end - start) {
            Ok(()) => {},
            Err(e) => return Err(e),
        }
        let ghost orig = self@;
        let ghost cap0 = self.spec_capacity();
        let mut i: usize = start;
        while i < end
            invariant
                start <= i <= end <= orig.len(),
                self@.len() == orig.len() + (i - start),
                self@.subrange(0, orig.len() as int) == orig,
                forall|j: int|
                    start <= j < i ==> cloned::<T>(#[trigger] orig[j], self@[orig.len() + j - start]),
                orig.len() + (end - start) <= self.spec_capacity() <= C::Index::max_usize(),
                self.spec_capacity() == cap0,
                self.spec_allocator() == old(self).spec_allocator(),
            decreases end - i,
        {
            let item = self.items[i].clone();
            proof {
                assert(self@[i as int] == orig[i as int]);
            }
            self.items.push(item);
            proof {
                assert(self@.subrange(0, orig.len() as int) =~= orig);
            }
            i = i + 1;
        }
        proof {
            let src = orig.subrange(start as int, end as int);
            let tail = self@.subrange(orig.len() as int, self@.len() as int);
            assert forall|j: int| 0 <= j < src.len() implies cloned::<T>(#[trigger] src[j], tail[j]) by {
                assert(src[j] == orig[start + j]);
                assert(tail[j] == self@[orig.len() + (start + j) - start]);
            }
        }
        Ok(())
    }

    /// Clone each existing entry in `range` and push it onto this vector. The
    /// range must lie within the vector, which must be able to make room.
    pub fn extend_from_within(&mut self, range: core::ops::Range<C::Index>)
        where
            T: Clone,
        requires
            old(self).wf(),
            range.start.as_nat() <= range.end.as_nat() <= old(self)@.len(),
            old(self).can_reserve((range.end.as_nat() - range.start.as_nat()) as nat),
        ensures
            final(self).wf(),
            final(self).spec_allocator() == old(self).spec_allocator(),
            final(self).spec_capacity() == old(self).reserve_result(
                (range.end.as_nat() - range.start.as_nat()) as nat)->Ok_0,
            final(self)@.subrange(0, old(self)@.len() as int) == old(self)@,
            clones_of(
                old(self)@.subrange(range.start.as_nat() as int, range.end.as_nat() as int),
                final(self)@.subrange(old(self)@.len() as int, final(self)@.len() as int),
            ),
    {
        let _ = self.try_extend_from_within(range);
    }

    /// Attempts to resize the vector in-place so that the length is equal to
    /// `new_len`, filling new slots with clones of `value` or truncating.
    /// Room for new slots is obtained first; on failure nothing changes.
    pub fn try_resize(&mut self, new_len: C::Index, value: T) -> (r: Result<(), StorageError>)
        where
            T: Clone,
        requires
            old(self).wf(),
        ensures
            final(self).wf(),
            final(self).spec_allocator() == old(self).spec_allocator(),
            new_len.as_nat() <= old(self)@.len() ==> r is Ok && final(self)@ == old(self)@.subrange(
                0,
                new_len.as_nat() as int,
            ) && final(self).spec_capacity() == old(self).spec_capacity(),
            new_len.as_nat() > old(self)@.len() ==> match old(self).reserve_result(
                (new_len.as_nat() - old(self)@.len()) as nat) {
                Ok(c) => r is Ok && final(self).spec_capacity() == c && final(self)@.len()
                    == new_len.as_nat() && final(self)@.subrange(0, old(self)@.len() as int) == old(self)@ && all_clones_of(
                    value,
                    final(self)@.subrange(old(self)@.len() as int, new_len.as_nat() as int),
                ),
                Err(e) => r == Err::<(), StorageError>(e) && final(self)@ == old(self)@
                    && final(self).spec_capacity() == old(self).spec_capacity(),
            },
    {
        let len: usize = self.items.len();
        let target: usize = new_len.to_usize();
        if target > len {
            let ins_count: usize = target - len;
            proof {
                self.lemma_wf_reserve(ins_count as nat);
            }
            match self._try_reserve(ins_count) {
                Ok(()) => {},
                Err(e) => return Err(e),
            }
            let ghost orig = self@;
            let ghost cap0 = self.spec_capacity();
            let mut i: usize = 0;
            while i < ins_count
                invariant
                    i <= ins_count,
                    len == orig.len(),
                    self@.len() == orig.len() + i,
                    self@.subrange(0, orig.len() as int) == orig,
                    forall|j: int| orig.len() <= j < self@.len() ==> cloned::<T>(value, #[trigger] self@[j]),
                    orig.len() + ins_count <= self.spec_capacity() <= C::Index::max_usize(),
                    self.spec_capacity() == cap0,
                    self.spec_allocator() == old(self).spec_allocator(),
                decreases ins_count - i,
            {
                let item = value.clone();
                self.items.push(item);
                proof {
                    assert(self@.subrange(0, orig.len() as int) =~= orig);
                }
                i = i + 1;
            }
            proof {
                let tail = self@.subrange(orig.len() as int, self@.len() as int);
                assert forall|j: int| 0 <= j < tail.len() implies cloned::<T>(value, #[trigger] tail[j]) by {
                    assert(tail[j] == self@[orig.len() + j]);
                }
            }
        } else {
            self.items.truncate(target);
        }
        Ok(())
    }

    /// Resizes the vector in-place so that the length is equal to `new_len`,
    /// filling new slots with clones of `value` or truncating. The vector must
    /// be able to make room for new slots.
    pub fn resize(&mut self, new_len: C::Index, value: T)
        where
            T: Clone,
        requires
            old(self).wf(),
            new_len.as_nat() > old(self)@.len() ==> old(self).can_reserve(
                (new_len.as_nat() - old(self)@.len()) as nat,
            ),
        ensures
            final(self).wf(),
            final(self).spec_allocator() == old(self).spec_allocator(),
            new_len.as_nat() <= old(self)@.len() ==> final(self)@ == old(self)@.subrange(
                0,
                new_len.as_nat() as int,
            ) && final(self).spec_capacity() == old(self).spec_capacity(),
            new_len.as_nat() > old(self)@.len() ==> final(self).spec_capacity() == old(self).reserve_result((new_len.as_nat() - old(self)@.len()) as nat)->Ok_0
                && final(self)@.len() == new_len.as_nat() && final(self)@.subrange(
                0,
                old(self)@.len() as int,
            ) == old(self)@ && all_clones_of(
                value,
                final(self)@.subrange(old(self)@.len() as int, new_len.as_nat() as int),
            ),
    {
        let _ = self.try_resize(new_len, value);
    }

    /// Attempts to resize the vector in-place so that the length is equal to
    /// `new_len`, filling new slots with results of calling `f` in order, or
    /// truncating. Room for new slots is obtained first; on failure nothing changes.
    pub fn try_resize_with<F: Fn() -> T>(&mut self, new_len: C::Index, f: F) -> (r: Result<
        (),
        StorageError,
    >)
        requires
            old(self).wf(),
            call_requires(f, ()),
            forall|x: T| call_ensures(f, (), x) ==> call_requires(f, ()),
        ensures
            final(self).wf(),
            final(self).spec_allocator() == old(self).spec_allocator(),
            new_len.as_nat() <= old(self)@.len() ==> r is Ok && final(self)@ == old(self)@.subrange(
                0,
                new_len.as_nat() as int,
            ) && final(self).spec_capacity() == old(self).spec_capacity(),
            new_len.as_nat() > old(self)@.len() ==> match old(self).reserve_result(
                (new_len.as_nat() - old(self)@.len()) as nat) {
                Ok(c) => r is Ok && final(self).spec_capacity() == c && final(self)@.len()
                    == new_len.as_nat() && final(self)@.subrange(0, old(self)@.len() as int) == old(self)@ && forall|j: int|
                    old(self)@.len() <= j < new_len.as_nat() ==> call_ensures(
                        f,
                        (),
                        #[trigger] final(self)@[j],
                    ),
                Err(e) => r == Err::<(), StorageError>(e) && final(self)@ == old(self)@
                    && final(self).spec_capacity() == old(self).spec_capacity(),
            },
    {
        let len: usize = self.items.len();
        let target: usize = new_len.to_usize();
        if target > len {
            let ins_count: usize = target - len;
            proof {
                self.lemma_wf_reserve(ins_count as nat);
            }
            match self._try_reserve(ins_count) {
                Ok(()) => {},
                Err(e) => return Err(e),
            }
            let ghost orig = self@;
            let ghost cap0 = self.spec_capacity();
            let mut i: usize = 0;
            while i < ins_count
                invariant
                    i <= ins_count,
                    len == orig.len(),
                    call_requires(f, ()),
                    forall|x: T| call_ensures(f, (), x) ==> call_requires(f, ()),
                    self@.len() == orig.len() + i,
                    self@.subrange(0, orig.len() as int) == orig,
                    forall|j: int| orig.len() <= j < self@.len() ==> call_ensures(f, (), #[trigger] self@[j]),
                    orig.len() + ins_count <= self.spec_capacity() <= C::Index::max_usize(),
                    self.spec_capacity() == cap0,
                    self.spec_allocator() == old(self).spec_allocator(),
                decreases ins_count - i,
            {
                let item = f();
                self.items.push(item);
                proof {
                    assert(self@.subrange(0, orig.len() as int) =~= orig);
                }
                i = i + 1;
            }
        } else {
            self.items.truncate(target);
        }
        Ok(())
    }

    /// Resizes the vector in-place so that the length is equal to `new_len`,
    /// filling new slots with results of calling `f` in order, or truncating.
    /// The vector must be able to make room for new slots.
    pub fn resize_with<F: Fn() -> T>(&mut self, new_len: C::Index, f: F)
        requires
            old(self).wf(),
            call_requires(f, ()),
            forall|x: T| call_ensures(f, (), x) ==> call_requires(f, ()),
            new_len.as_nat() > old(self)@.len() ==> old(self).can_reserve(
                (new_len.as_nat() - old(self)@.len()) as nat,
            ),
        ensures
            final(self).wf(),
            final(self).spec_allocator() == old(self).spec_allocator(),
            new_len.as_nat() <= old(self)@.len() ==> final(self)@ == old(self)@.subrange(
                0,
                new_len.as_nat() as int,
            ) && final(self).spec_capacity() == old(self).spec_capacity(),
            new_len.as_nat() > old(self)@.len() ==> final(self).spec_capacity() == old(self).reserve_result((new_len.as_nat() - old(self)@.len()) as nat)->Ok_0
                && final(self)@.len() == new_len.as_nat() && final(self)@.subrange(
                0,
                old(self)@.len() as int,
            ) == old(self)@ && forall|j: int|
                old(self)@.len() <= j < new_len.as_nat() ==> call_ensures(
                    f,
                    (),
                    #[trigger] final(self)@[j],
                ),
    {
        let _ = self.try_resize_with(new_len, f);
    }

    /// Retains only the elements for which the predicate holds, visiting each
    /// element exactly once in the original order and preserving the order of
    /// the retained elements. The capacity is unchanged.
    pub fn retain<F: Fn(&T) -> bool>(&mut self, f: F)
        requires
            old(self).wf(),
            forall|x: &T| call_requires(f, (x,)),
        ensures
            final(self).wf(),
            final(self).same_buffer(old(self)),
            exists|keep: Seq<bool>|
                {
                    &&& keep.len() == old(self)@.len()
                    &&& forall|i: int|
                        0 <= i < keep.len() ==> call_ensures(f, (&old(self)@[i],), #[trigger] keep[i])
                    &&& final(self)@ == filter_keep(old(self)@, keep)
                },
    {
        let mut taken: std::vec::Vec<T> = std::vec::Vec::new();
        core::mem::swap(&mut taken, &mut self.items);
        let ghost orig = taken@;
        let mut rest = self::drain::deque_from_vec(taken);
        let ghost mut keep: Seq<bool> = Seq::empty();
        let mut i: usize = 0;
        let n: usize = rest.len();
        while i < n
            invariant
                n == orig.len(),
                i <= n,
                rest@ == orig.subrange(i as int, n as int),
                keep.len() == i,
                forall|j: int| 0 <= j < i ==> call_ensures(f, (&orig[j],), #[trigger] keep[j]),
                forall|x: &T| call_requires(f, (x,)),
                self@ == filter_keep(orig.subrange(0, i as int), keep),
                self@.len() <= i,
                orig.len() <= self.spec_capacity() <= C::Index::max_usize(),
                self.spec_capacity() == old(self).spec_capacity(),
                self.spec_allocator() == old(self).spec_allocator(),
            decreases n - i,
        {
            let ghost before = self@;
            let item = rest.pop_front().unwrap();
            proof {
                assert(item == orig[i as int]);
            }
            let b = f(&item);
            let ghost old_keep = keep;
            proof {
                keep = keep.push(b);
                assert(keep.drop_last() =~= old_keep);
                let pre = orig.subrange(0, i + 1);
                assert(pre.drop_last() =~= orig.subrange(0, i as int));
                assert(pre.last() == item);
                assert(filter_keep(pre, keep) == (if b {
                    before.push(item)
                } else {
                    before
                }));
            }
            if b {
                self.items.push(item);
            }
            proof {
                assert(rest@ =~= orig.subrange(i + 1, n as int));
            }
            i = i + 1;
        }
        proof {
            assert(orig.subrange(0, n as int) =~= orig);
        }
    }
}


/// The items of `s` without those equal to the item kept just before them:
/// each item is compared with the last item kept so far.
pub open spec fn spec_dedup<T: PartialEq>(s: Seq<T>) -> Seq<T>
    decreases s.len(),
{
    if s.len() <= 1 {
        s
    } else {
        let prev = spec_dedup(s.drop_last());
        if s.last().eq_spec(&prev.last()) {
            prev
        } else {
            prev.push(s.last())
        }
    }
}

/// Deduplicating a non-empty sequence keeps its first item.
pub proof fn lemma_dedup_nonempty<T: PartialEq>(s: Seq<T>)
    requires
        s.len() > 0,
    ensures
        spec_dedup(s).len() > 0,
        spec_dedup(s).len() <= s.len(),
        spec_dedup(s)[0] == s[0],
    decreases s.len(),
{
    if s.len() > 1 {
        lemma_dedup_nonempty(s.drop_last());
    }
}

impl<T, C: VecConfig> Vec<T, C> {
    /// Removes consecutive repeated elements in the vector: each element equal
    /// to the last element kept before it is dropped. If the vector is sorted,
    /// this removes all duplicates. The capacity is unchanged.
    pub fn dedup(&mut self)
        where
            T: PartialEq,
        requires
            old(self).wf(),
        ensures
            final(self).wf(),
            final(self).same_buffer(old(self)),
            final(self)@.len() <= old(self)@.len(),
            <T as PartialEqSpec>::obeys_eq_spec() ==> final(self)@ == spec_dedup(old(self)@),
    {
        let mut taken: std::vec::Vec<T> = std::vec::Vec::new();
        core::mem::swap(&mut taken, &mut self.items);
        let ghost orig = taken@;
        let mut rest = self::drain::deque_from_vec(taken);
        let mut i: usize = 0;
        let n: usize = rest.len();
        while i < n
            invariant
                n == orig.len(),
                i <= n,
                rest@ == orig.subrange(i as int, n as int),
                <T as PartialEqSpec>::obeys_eq_spec() ==> self@ == spec_dedup(
                    orig.subrange(0, i as int),
                ),
                self@.len() <= i,
                i > 0 ==> self@.len() > 0,
                orig.len() <= self.spec_capacity() <= C::Index::max_usize(),
                self.spec_capacity() == old(self).spec_capacity(),
                self.spec_allocator() == old(self).spec_allocator(),
            decreases n - i,
        {
            let ghost before = self@;
            let item = rest.pop_front().unwrap();
            proof {
                assert(item == orig[i as int]);
                let pre = orig.subrange(0, i + 1);
                assert(pre.drop_last() =~= orig.subrange(0, i as int));
                assert(pre.last() == item);
                if i == 0 {
                    assert(pre =~= seq![item]);
                }
            }
            let len: usize = self.items.len();
            if len > 0 && item.eq(&self.items[len - 1]) {
            } else {
                self.items.push(item);
            }
            proof {
                assert(rest@ =~= orig.subrange(i + 1, n as int));
            }
            i = i + 1;
        }
        proof {
            assert(orig.subrange(0, n as int) =~= orig);
        }
    }

    /// The capacity after a request to shrink the buffer to `max(len, min_capacity)`
    /// items: when the capacity already lies at or below that bound nothing is
    /// requested; otherwise the buffer is resized to exactly that bound.
    pub open spec fn shrink_result(&self, min_capacity: nat) -> Result<nat, StorageError> {
        let target = crate::index::nat_max(self@.len(), min_capacity);
        if self.spec_capacity() > target {
            C::spec_resize(
                self.spec_allocator(),
                vstd::layout::size_of::<T>(),
                vstd::layout::align_of::<T>(),
                self.spec_capacity(),
                target,
                true,
            )
        } else {
            Ok(self.spec_capacity())
        }
    }

    /// Tries to shrink the capacity of the vector with a lower bound. The
    /// capacity will remain at least as large as both the current length and
    /// `min_capacity`; if it is already no larger than that, this is a no-op.
    pub fn try_shrink_to(&mut self, min_capacity: C::Index) -> (r: Result<(), StorageError>)
        requires
            old(self).wf(),
        ensures
            final(self).wf(),
            final(self)@ == old(self)@,
            final(self).spec_allocator() == old(self).spec_allocator(),
            match old(self).shrink_result(min_capacity.as_nat()) {
                Ok(c) => r is Ok && final(self).spec_capacity() == c,
                Err(e) => r == Err::<(), StorageError>(e) && final(self).spec_capacity()
                    == old(self).spec_capacity(),
            },
    {
        let len: usize = self.items.len();
        let min: usize = min_capacity.to_usize();
        let target: C::Index = if len >= min {
            C::Index::from_usize(len)
        } else {
            min_capacity
        };
        if self.capacity.to_usize() > target.to_usize() {
            proof {
                C::lemma_config_covers(
                    self.spec_allocator(),
                    vstd::layout::size_of::<T>(),
                    vstd::layout::align_of::<T>(),
                    self.spec_capacity(),
                    target.as_nat(),
                    true,
                );
            }
            match C::resize_buffer::<T>(&self.alloc, self.capacity, target, true) {
                Ok(c) => {
                    self.capacity = c;
                    Ok(())
                },
                Err(e) => Err(e),
            }
        } else {
            Ok(())
        }
    }

    /// Shrinks the capacity of the vector with a lower bound; the request must succeed.
    pub fn shrink_to(&mut self, min_capacity: C::Index)
        requires
            old(self).wf(),
            old(self).shrink_result(min_capacity.as_nat()) is Ok,
        ensures
            final(self).wf(),
            final(self)@ == old(self)@,
            final(self).spec_allocator() == old(self).spec_allocator(),
            final(self).spec_capacity() == old(self).shrink_result(min_capacity.as_nat())->Ok_0,
    {
        let _ = self.try_shrink_to(min_capacity);
    }

    /// Try to shrink the capacity of the vector as much as possible.
    pub fn try_shrink_to_fit(&mut self) -> (r: Result<(), StorageError>)
        requires
            old(self).wf(),
        ensures
            final(self).wf(),
            final(self)@ == old(self)@,
            final(self).spec_allocator() == old(self).spec_allocator(),
            match old(self).shrink_result(old(self)@.len()) {
                Ok(c) => r is Ok && final(self).spec_capacity() == c,
                Err(e) => r == Err::<(), StorageError>(e) && final(self).spec_capacity()
                    == old(self).spec_capacity(),
            },
    {
        let len: C::Index = self.len();
        self.try_shrink_to(len)
    }

    /// Shrink the capacity of the vector as much as possible; the request must succeed.
    pub fn shrink_to_fit(&mut self)
        requires
            old(self).wf(),
            old(self).shrink_result(old(self)@.len()) is Ok,
        ensures
            final(self).wf(),
            final(self)@ == old(self)@,
            final(self).spec_allocator() == old(self).spec_allocator(),
            final(self).spec_capacity() == old(self).shrink_result(old(self)@.len())->Ok_0,
    {
        let _ = self.try_shrink_to_fit();
    }

    /// Extract a range of items from this vector, returning an iterator over
    /// the extracted items. The range must lie within the vector. The remaining
    /// items close the gap; the capacity is unchanged.
    pub fn drain(&mut self, range: core::ops::Range<C::Index>) -> (r: Drain<T>)
        requires
            old(self).wf(),
            range.start.as_nat() <= range.end.as_nat() <= old(self)@.len(),
        ensures
            final(self).wf(),
            final(self).same_buffer(old(self)),
            r@ == old(self)@.subrange(range.start.as_nat() as int, range.end.as_nat() as int),
            final(self)@ == old(self)@.subrange(0, range.start.as_nat() as int) + old(self)@.subrange(range.end.as_nat() as int, old(self)@.len() as int),
    {
        let start: usize = range.start.to_usize();
        let end: usize = range.end.to_usize();
        let mut tail = self.items.split_off(end);
        let mid = self.items.split_off(start);
        self.items.append(&mut tail);
        Drain::from_vec(mid)
    }

    /// The capacity after `range` is replaced by `count` items: the vector,
    /// once the range is removed, makes room for `count` more items.
    pub open spec fn splice_result(&self, start: nat, end: nat, count: nat) -> Result<
        nat,
        StorageError,
    > {
        spec_reserve_result::<C>(
            self.spec_allocator(),
            vstd::layout::size_of::<T>(),
            vstd::layout::align_of::<T>(),
            (self@.len() - (end - start)) as nat,
            self.spec_capacity(),
            count,
            spec_min_non_zero_cap::<T>(),
        )
    }

    /// Replace the specified range in the vector with the items of
    /// `replace_with`, returning an iterator over the removed items. The range
    /// must lie within the vector, which must be able to make room for the new items.
    pub fn splice(&mut self, range: core::ops::Range<C::Index>, replace_with: std::vec::Vec<T>) -> (r:
        Splice<T>)
        requires
            old(self).wf(),
            range.start.as_nat() <= range.end.as_nat() <= old(self)@.len(),
            old(self).splice_result(
                range.start.as_nat(),
                range.end.as_nat(),
                replace_with@.len(),
            ) is Ok,
        ensures
            final(self).wf(),
            final(self).spec_allocator() == old(self).spec_allocator(),
            final(self).spec_capacity() == old(self).splice_result(
                range.start.as_nat(),
                range.end.as_nat(),
                replace_with@.len(),
            )->Ok_0,
            r@ == old(self)@.subrange(range.start.as_nat() as int, range.end.as_nat() as int),
            final(self)@ == old(self)@.subrange(0, range.start.as_nat() as int) + replace_with@ + old(self)@.subrange(range.end.as_nat() as int, old(self)@.len() as int),
    {
        let start: usize = range.start.to_usize();
        let end: usize = range.end.to_usize();
        let mut tail = self.items.split_off(end);
        let mid = self.items.split_off(start);
        self.items.append(&mut tail);
        let ghost gap = self@;
        proof {
            self.lemma_wf_reserve(replace_with@.len());
            assert(gap.len() == old(self)@.len() - (end - start));
        }
        let _ = self._try_reserve(replace_with.len());
        let mut tail = self.items.split_off(start);
        let ghost added = replace_with@;
        let mut replace_with = replace_with;
        self.items.append(&mut replace_with);
        self.items.append(&mut tail);
        proof {
            assert(self@ =~= old(self)@.subrange(0, start as int) + added + old(self)@.subrange(end as int, old(self)@.len() as int));
        }
        Splice::from_vec(mid)
    }

    /// Consume the vector, returning an iterator over its items.
    pub fn into_iter(self) -> (r: IntoIter<T>)
        ensures
            r@ == self@,
    {
        IntoIter::from_vec(self.items)
    }

    /// Access the contained data as a mutable slice reference. Changes made
    /// through the slice become the items of the vector.
    pub fn as_mut_slice(&mut self) -> (r: &mut [T])
        requires
            old(self).wf(),
        ensures
            r@ == old(self)@,
            final(self)@ == final(r)@,
            final(self).same_buffer(old(self)),
    {
        self.items.as_mut_slice()
    }

    /// Consume the vector, returning its items as a standard vector.
    pub fn into_std_vec(self) -> (r: std::vec::Vec<T>)
        ensures
            r@ == self@,
    {
        self.items
    }
}


/// Move the items of an array into a standard vector.
///
/// Trusted: calls std's `From<[T; N]> for Vec<T>`, documented to allocate a
/// vector and move the array's items into it; the contract claims the
/// vector holds exactly the array's items, in order.
#[verifier::external_body]
fn array_into_vec<T, const N: usize>(data: [T; N]) -> (r: std::vec::Vec<T>)
    ensures
        r@ == data@,
{
    std::vec::Vec::from(data)
}

impl<T, C: VecConfig> Vec<T, C> {
    /// Push `count` clones of `elem` onto the vector, which already has room for them.
    fn push_clones(&mut self, elem: &T, count: usize)
        where
            T: Clone,
        requires
            old(self)@.len() + count <= old(self).spec_capacity() <= C::Index::max_usize(),
        ensures
            final(self).wf(),
            final(self).same_buffer(old(self)),
            final(self)@.len() == old(self)@.len() + count,
            final(self)@.subrange(0, old(self)@.len() as int) == old(self)@,
            all_clones_of(
                *elem,
                final(self)@.subrange(old(self)@.len() as int, final(self)@.len() as int),
            ),
    {
        let ghost orig = self@;
        let mut i: usize = 0;
        while i < count
            invariant
                i <= count,
                self@.len() == orig.len() + i,
                self@.subrange(0, orig.len() as int) == orig,
                forall|j: int| orig.len() <= j < self@.len() ==> cloned::<T>(*elem, #[trigger] self@[j]),
                orig.len() + count <= self.spec_capacity() <= C::Index::max_usize(),
                self.spec_capacity() == old(self).spec_capacity(),
                self.spec_allocator() == old(self).spec_allocator(),
            decreases count - i,
        {
            let item = elem.clone();
            self.items.push(item);
            proof {
                assert(self@.subrange(0, orig.len() as int) =~= orig);
            }
            i = i + 1;
        }
        proof {
            let tail = self@.subrange(orig.len() as int, self@.len() as int);
            assert forall|j: int| 0 <= j < tail.len() implies cloned::<T>(*elem, #[trigger] tail[j]) by {
                assert(tail[j] == self@[orig.len() + j]);
            }
        }
    }

    /// Try to construct a new `Vec<T, C>` in the allocation target `alloc_in`
    /// holding clones of the items of `data`. Fails with a capacity error when
    /// the length is not representable by the index type.
    pub fn try_from_slice_in<A: VecNewIn<T, Config = C>>(data: &[T], alloc_in: A) -> (r: Result<
        Self,
        StorageError,
    >)
        where
            T: Clone,
        ensures
            data@.len() > C::Index::max_usize() ==> r == Err::<Self, StorageError>(
                StorageError::CapacityLimit,
            ),
            data@.len() <= C::Index::max_usize() ==> match alloc_in.spec_new_in(
                data@.len(),
                false,
            ) {
                Ok((a, c)) => r matches Ok(v) && v.wf() && clones_of(data@, v@)
                    && v.spec_allocator() == a && v.spec_capacity() == c,
                Err(e) => r matches Err(e2) && e2 == e,
            },
    {
        let len: C::Index = match C::Index::try_from_usize(data.len()) {
            Some(l) => l,
            None => return Err(StorageError::CapacityLimit),
        };
        let mut vec = match Self::try_with_capacity_in(len, alloc_in) {
            Ok(v) => v,
            Err(e) => return Err(e),
        };
        proof {
            alloc_in.lemma_new_in_covers(len.as_nat(), false);
        }
        vec.extend_clones(data);
        proof {
            assert(vec@.subrange(0, vec@.len() as int) =~= vec@);
        }
        Ok(vec)
    }

    /// Construct a new `Vec<T, C>` in the allocation target `alloc_in` holding
    /// clones of the items of `data`. The length must be representable and the
    /// target must provide room for it.
    pub fn from_slice_in<A: VecNewIn<T, Config = C>>(data: &[T], alloc_in: A) -> (r: Self)
        where
            T: Clone,
        requires
            data@.len() <= C::Index::max_usize(),
            alloc_in.spec_new_in(data@.len(), false) is Ok,
        ensures
            r.wf(),
            clones_of(data@, r@),
            (r.spec_allocator(), r.spec_capacity()) == alloc_in.spec_new_in(
                data@.len(),
                false,
            )->Ok_0,
    {
        match Self::try_from_slice_in(data, alloc_in) {
            Ok(v) => v,
            Err(_) => vstd::pervasive::unreached(),
        }
    }

    /// Create a `Vec<T, C>` in the allocation target `alloc_in` holding the
    /// items of `items`, sized for them up-front. The length must be
    /// representable and the target must provide room for it.
    pub fn from_iter_in<A: VecNewIn<T, Config = C>>(items: std::vec::Vec<T>, alloc_in: A) -> (r:
        Self)
        requires
            items@.len() <= C::Index::max_usize(),
            alloc_in.spec_new_in(items@.len(), false) is Ok,
        ensures
            r.wf(),
            r@ == items@,
            (r.spec_allocator(), r.spec_capacity()) == alloc_in.spec_new_in(
                items@.len(),
                false,
            )->Ok_0,
    {
        let len: C::Index = C::Index::from_usize(items.len());
        proof {
            alloc_in.lemma_new_in_covers(len.as_nat(), false);
        }
        let mut vec = Self::with_capacity_in(len, alloc_in);
        let mut items = items;
        vec.items.append(&mut items);
        vec
    }

    /// Create a `Vec<T, C>` in the allocation target `alloc_in` holding `count`
    /// clones of `elem`. The count must be representable and the target must
    /// provide room for it.
    pub fn from_elem_in<A: VecNewIn<T, Config = C>>(elem: T, count: usize, alloc_in: A) -> (r:
        Self)
        where
            T: Clone,
        requires
            count <= C::Index::max_usize(),
            alloc_in.spec_new_in(count as nat, false) is Ok,
        ensures
            r.wf(),
            r@.len() == count,
            all_clones_of(elem, r@),
            (r.spec_allocator(), r.spec_capacity()) == alloc_in.spec_new_in(
                count as nat,
                false,
            )->Ok_0,
    {
        let len: C::Index = C::Index::from_usize(count);
        proof {
            alloc_in.lemma_new_in_covers(len.as_nat(), false);
        }
        let mut vec = Self::with_capacity_in(len, alloc_in);
        vec.push_clones(&elem, count);
        proof {
            assert(vec@.subrange(0, vec@.len() as int) =~= vec@);
        }
        vec
    }
}

impl<T, C: VecConfigNew> Vec<T, C> {
    /// Try to construct a new `Vec<T, C>` holding clones of the items of `data`.
    /// Fails with a capacity error when the length is not representable by
    /// the index type.
    pub fn try_from_slice(data: &[T]) -> (r: Result<Self, StorageError>)
        where
            T: Clone,
        ensures
            data@.len() > C::Index::max_usize() ==> r == Err::<Self, StorageError>(
                StorageError::CapacityLimit,
            ),
            data@.len() <= C::Index::max_usize() ==> match C::spec_try_new(
                vstd::layout::size_of::<T>(),
                vstd::layout::align_of::<T>(),
                data@.len(),
                false,
            ) {
                Ok((a, c)) => r matches Ok(v) && v.wf() && clones_of(data@, v@)
                    && v.spec_allocator() == a && v.spec_capacity() == c,
                Err(e) => r matches Err(e2) && e2 == e,
            },
    {
        let len: C::Index = match C::Index::try_from_usize(data.len()) {
            Some(l) => l,
            None => return Err(StorageError::CapacityLimit),
        };
        let mut vec = match Self::try_with_capacity(len) {
            Ok(v) => v,
            Err(e) => return Err(e),
        };
        proof {
            C::lemma_new_covers(
                vstd::layout::size_of::<T>(),
                vstd::layout::align_of::<T>(),
                len.as_nat(),
                false,
            );
        }
        vec.extend_clones(data);
        proof {
            assert(vec@.subrange(0, vec@.len() as int) =~= vec@);
        }
        Ok(vec)
    }

    /// Construct a new `Vec<T, C>` holding clones of the items of `data`. The
    /// length must be representable and the configuration must provide room for it.
    pub fn from_slice(data: &[T]) -> (r: Self)
        where
            T: Clone,
        requires
            data@.len() <= C::Index::max_usize(),
            C::spec_try_new(
                vstd::layout::size_of::<T>(),
                vstd::layout::align_of::<T>(),
                data@.len(),
                false,
            ) is Ok,
        ensures
            r.wf(),
            clones_of(data@, r@),
            (r.spec_allocator(), r.spec_capacity()) == C::spec_try_new(
                vstd::layout::size_of::<T>(),
                vstd::layout::align_of::<T>(),
                data@.len(),
                false,
            )->Ok_0,
    {
        match Self::try_from_slice(data) {
            Ok(v) => v,
            Err(_) => vstd::pervasive::unreached(),
        }
    }

    /// Create a `Vec<T, C>` holding the items of `items`, sized for them
    /// up-front. The length must be representable and the configuration must
    /// provide room for it.
    pub fn from_iter(items: std::vec::Vec<T>) -> (r: Self)
        requires
            items@.len() <= C::Index::max_usize(),
            C::spec_try_new(
                vstd::layout::size_of::<T>(),
                vstd::layout::align_of::<T>(),
                items@.len(),
                false,
            ) is Ok,
        ensures
            r.wf(),
            r@ == items@,
            (r.spec_allocator(), r.spec_capacity()) == C::spec_try_new(
                vstd::layout::size_of::<T>(),
                vstd::layout::align_of::<T>(),
                items@.len(),
                false,
            )->Ok_0,
    {
        let len: C::Index = C::Index::from_usize(items.len());
        proof {
            C::lemma_new_covers(
                vstd::layout::size_of::<T>(),
                vstd::layout::align_of::<T>(),
                len.as_nat(),
                false,
            );
        }
        let mut vec = Self::with_capacity(len);
        let mut items = items;
        vec.items.append(&mut items);
        vec
    }
}

impl<T, C: VecConfigNew> Default for Vec<T, C> {
    fn default() -> (r: Self)
        ensures
            r.wf(),
            r@ == Seq::<T>::empty(),
            r.spec_allocator() == C::spec_empty().0,
            r.spec_capacity() == C::spec_empty().1,
    {
        Self::new()
    }
}

/// The capacity of a new, empty global vector of items of type `T` after it
/// makes room for `count` items.
pub open spec fn global_grow_result<T>(count: nat) -> Result<nat, StorageError> {
    spec_reserve_result::<Global>(
        Global,
        vstd::layout::size_of::<T>(),
        vstd::layout::align_of::<T>(),
        0,
        0,
        count,
        spec_min_non_zero_cap::<T>(),
    )
}

/// Create a `Vec<T>` from an array `[T; N]`: an empty vector makes room for
/// the items, which must succeed, and takes them in order.
pub fn from_array<T, const N: usize>(data: [T; N]) -> (r: Vec<T>)
    requires
        global_grow_result::<T>(N as nat) is Ok,
    ensures
        r.wf(),
        r@ == data@,
        r.spec_capacity() == global_grow_result::<T>(N as nat)->Ok_0,
{
    let mut v: Vec<T> = Vec::new();
    let items = array_into_vec(data);
    v.extend(items);
    v
}

/// Create a `Vec<T, C>` from an array `[T; N]` in the allocation target
/// `alloc_in`: an empty vector is created there, makes room for the items,
/// which must succeed, and takes them in order.
pub fn from_array_in<T, A: VecNewIn<T>, const N: usize>(data: [T; N], alloc_in: A) -> (r: Vec<
    T,
    A::Config,
>)
    requires
        alloc_in.spec_new_in(0, false) matches Ok((a, c)) && spec_reserve_result::<A::Config>(
            a,
            vstd::layout::size_of::<T>(),
            vstd::layout::align_of::<T>(),
            0,
            c,
            N as nat,
            spec_min_non_zero_cap::<T>(),
        ) is Ok,
    ensures
        r.wf(),
        r@ == data@,
        alloc_in.spec_new_in(0, false) matches Ok((a, c)) && r.spec_allocator() == a
            && r.spec_capacity() == spec_reserve_result::<A::Config>(
            a,
            vstd::layout::size_of::<T>(),
            vstd::layout::align_of::<T>(),
            0,
            c,
            N as nat,
            spec_min_non_zero_cap::<T>(),
        )->Ok_0,
{
    let mut v: Vec<T, A::Config> = Vec::new_in(alloc_in);
    let items = array_into_vec(data);
    v.extend(items);
    v
}

/// Create a `Vec<T>` holding `count` clones of `elem`, sized for them up-front,
/// which must succeed.
pub fn from_elem<T: Clone>(elem: T, count: usize) -> (r: Vec<T>)
    requires
        Global::spec_try_new(
            vstd::layout::size_of::<T>(),
            vstd::layout::align_of::<T>(),
            count as nat,
            false,
        ) is Ok,
    ensures
        r.wf(),
        r@.len() == count,
        all_clones_of(elem, r@),
        r.spec_capacity() == Global::spec_try_new(
            vstd::layout::size_of::<T>(),
            vstd::layout::align_of::<T>(),
            count as nat,
            false,
        )->Ok_0.1,
{
    proof {
        Global::lemma_new_covers(
            vstd::layout::size_of::<T>(),
            vstd::layout::align_of::<T>(),
            count as nat,
            false,
        );
    }
    let mut v: Vec<T> = Vec::with_capacity(count);
    v.push_clones(&elem, count);
    proof {
        assert(v@.subrange(0, v@.len() as int) =~= v@);
    }
    v
}

/// Create a `Vec<T, C>` holding `count` clones of `elem` in the allocation
/// target `alloc_in`, sized for them up-front, which must succeed.
pub fn from_elem_in<T: Clone, A: VecNewIn<T>>(elem: T, count: usize, alloc_in: A) -> (r: Vec<
    T,
    A::Config,
>)
    requires
        count <= <A::Config as VecConfig>::Index::max_usize(),
        alloc_in.spec_new_in(count as nat, false) is Ok,
    ensures
        r.wf(),
        r@.len() == count,
        all_clones_of(elem, r@),
{
    Vec::from_elem_in(elem, count, alloc_in)
}


impl<T, C: VecConfig> From<Vec<T, C>> for std::vec::Vec<T> {
    fn from(vec: Vec<T, C>) -> (r: std::vec::Vec<T>) {
        vec.items
    }
}

impl<T, C: VecConfig> vstd::std_specs::convert::FromSpecImpl<Vec<T, C>> for std::vec::Vec<T> {
    open spec fn obeys_from_spec() -> bool {
        true
    }

    closed spec fn from_spec(vec: Vec<T, C>) -> std::vec::Vec<T> {
        vec.items
    }
}


/// Whether `same` is a possible outcome of comparing the keys that `key_f`
/// gives for `a` and `b`: both keys are possible results of `key_f`, and the
/// outcome is their equality whenever the key type's equality is specified.
pub open spec fn key_comparison<T, K: PartialEq, F: Fn(&T) -> K>(key_f: F, a: T, b: T, same: bool) -> bool {
    exists|ka: K, kb: K|
        #![trigger call_ensures(key_f, (&a,), ka), call_ensures(key_f, (&b,), kb)]
        {
            &&& call_ensures(key_f, (&a,), ka)
            &&& call_ensures(key_f, (&b,), kb)
            &&& <K as PartialEqSpec>::obeys_eq_spec() ==> same == ka.eq_spec(&kb)
        }
}

/// The items kept from `s` by the flags `keep`, where the first item is kept
/// and every later item is dropped exactly when its key compares equal to the
/// key of the last item kept before it.
pub open spec fn dedup_by_key_decisions<T, K: PartialEq, F: Fn(&T) -> K>(
    s: Seq<T>,
    keep: Seq<bool>,
    key_f: F,
) -> bool {
    &&& keep.len() == s.len()
    &&& s.len() > 0 ==> keep[0]
    &&& forall|i: int|
        1 <= i < s.len() ==> key_comparison(
            key_f,
            s[i],
            filter_keep(s.take(i), keep.take(i)).last(),
            !#[trigger] keep[i],
        )
}

/// The items kept from `s` by the flags `keep`, where the first item is kept
/// and every later item is dropped exactly when `same_bucket`, given that
/// item and the last item kept before it, reports them as the same.
pub open spec fn dedup_by_decisions<T, F: Fn(&T, &T) -> bool>(
    s: Seq<T>,
    keep: Seq<bool>,
    same_bucket: F,
) -> bool {
    &&& keep.len() == s.len()
    &&& s.len() > 0 ==> keep[0]
    &&& forall|i: int|
        1 <= i < s.len() ==> call_ensures(
            same_bucket,
            (&s[i], &filter_keep(s.take(i), keep.take(i)).last()),
            !#[trigger] keep[i],
        )
}

/// Keeping flags for every item of `s` keeps only flagged items, and the
/// first item survives when it is flagged.
proof fn lemma_filter_keep_first<T>(s: Seq<T>, keep: Seq<bool>)
    requires
        keep.len() == s.len(),
        s.len() > 0,
        keep[0],
    ensures
        filter_keep(s, keep).len() > 0,
    decreases s.len(),
{
    if s.len() > 1 {
        lemma_filter_keep_first(s.drop_last(), keep.drop_last());
    }
}

impl<T, C: VecConfig> Vec<T, C> {
    /// Removes all but the first of consecutive elements in the vector that
    /// `same_bucket` reports as the same. It is given each element and the
    /// last element kept before it, in that order; when it returns `true`,
    /// the element is removed. If the vector is sorted, this removes all
    /// duplicates. The capacity is unchanged.
    pub fn dedup_by<F: Fn(&T, &T) -> bool>(&mut self, same_bucket: F)
        requires
            old(self).wf(),
            forall|a: &T, b: &T| call_requires(same_bucket, (a, b)),
        ensures
            final(self).wf(),
            final(self).same_buffer(old(self)),
            exists|keep: Seq<bool>|
                {
                    &&& #[trigger] dedup_by_decisions(old(self)@, keep, same_bucket)
                    &&& final(self)@ == filter_keep(old(self)@, keep)
                },
    {
        let mut taken: std::vec::Vec<T> = std::vec::Vec::new();
        core::mem::swap(&mut taken, &mut self.items);
        let ghost orig = taken@;
        let mut rest = self::drain::deque_from_vec(taken);
        let ghost mut keep: Seq<bool> = Seq::empty();
        let mut i: usize = 0;
        let n: usize = rest.len();
        while i < n
            invariant
                n == orig.len(),
                i <= n,
                rest@ == orig.subrange(i as int, n as int),
                keep.len() == i,
                i > 0 ==> keep[0],
                forall|j: int|
                    1 <= j < i ==> call_ensures(
                        same_bucket,
                        (&orig[j], &filter_keep(orig.take(j), keep.take(j)).last()),
                        !#[trigger] keep[j],
                    ),
                forall|a: &T, b: &T| call_requires(same_bucket, (a, b)),
                self@ == filter_keep(orig.take(i as int), keep),
                self@.len() <= i,
                orig.len() <= self.spec_capacity() <= C::Index::max_usize(),
                self.spec_capacity() == old(self).spec_capacity(),
                self.spec_allocator() == old(self).spec_allocator(),
            decreases n - i,
        {
            let ghost before = self@;
            let ghost old_keep = keep;
            let item = rest.pop_front().unwrap();
            proof {
                assert(item == orig[i as int]);
                if i > 0 {
                    assert(keep.take(i as int) =~= keep);
                    lemma_filter_keep_first(orig.take(i as int), keep);
                }
            }
            let len: usize = self.items.len();
            let mut same: bool = false;
            if len > 0 {
                same = same_bucket(&item, &self.items[len - 1]);
            }
            proof {
                keep = keep.push(!same);
                assert(keep.drop_last() =~= old_keep);
                let pre = orig.take(i + 1);
                assert(pre.drop_last() =~= orig.take(i as int));
                assert(pre.last() == item);
                assert(keep.take(i + 1) =~= keep);
                assert(keep.take(i as int) =~= old_keep);
                assert forall|j: int| 1 <= j < i + 1 implies call_ensures(
                    same_bucket,
                    (&orig[j], &filter_keep(orig.take(j), keep.take(j)).last()),
                    !#[trigger] keep[j],
                ) by {
                    assert(keep.take(j) =~= old_keep.take(j));
                    if j == i {
                        assert(old_keep.take(j) =~= old_keep);
                    }
                }
            }
            if !same {
                self.items.push(item);
            }
            proof {
                assert(rest@ =~= orig.subrange(i + 1, n as int));
            }
            i = i + 1;
        }
        proof {
            assert(orig.take(n as int) =~= orig);
            assert(dedup_by_decisions(orig, keep, same_bucket));
        }
    }

    /// Removes all but the first of consecutive elements in the vector that
    /// resolve to the same key: each element is compared, by key, with the
    /// last element kept before it. If the vector is sorted by key, this
    /// removes all duplicates. The capacity is unchanged.
    pub fn dedup_by_key<K: PartialEq, F: Fn(&T) -> K>(&mut self, key_f: F)
        requires
            old(self).wf(),
            forall|x: &T| call_requires(key_f, (x,)),
        ensures
            final(self).wf(),
            final(self).same_buffer(old(self)),
            exists|keep: Seq<bool>|
                {
                    &&& #[trigger] dedup_by_key_decisions(old(self)@, keep, key_f)
                    &&& final(self)@ == filter_keep(old(self)@, keep)
                },
    {
        let mut taken: std::vec::Vec<T> = std::vec::Vec::new();
        core::mem::swap(&mut taken, &mut self.items);
        let ghost orig = taken@;
        let mut rest = self::drain::deque_from_vec(taken);
        let ghost mut keep: Seq<bool> = Seq::empty();
        let mut i: usize = 0;
        let n: usize = rest.len();
        while i < n
            invariant
                n == orig.len(),
                i <= n,
                rest@ == orig.subrange(i as int, n as int),
                keep.len() == i,
                i > 0 ==> keep[0],
                forall|j: int|
                    1 <= j < i ==> key_comparison(
                        key_f,
                        orig[j],
                        filter_keep(orig.take(j), keep.take(j)).last(),
                        !#[trigger] keep[j],
                    ),
                forall|x: &T| call_requires(key_f, (x,)),
                self@ == filter_keep(orig.take(i as int), keep),
                self@.len() <= i,
                orig.len() <= self.spec_capacity() <= C::Index::max_usize(),
                self.spec_capacity() == old(self).spec_capacity(),
                self.spec_allocator() == old(self).spec_allocator(),
            decreases n - i,
        {
            let ghost before = self@;
            let ghost old_keep = keep;
            let item = rest.pop_front().unwrap();
            proof {
                assert(item == orig[i as int]);
                if i > 0 {
                    assert(keep.take(i as int) =~= keep);
                    lemma_filter_keep_first(orig.take(i as int), keep);
                }
            }
            let len: usize = self.items.len();
            let mut same: bool = false;
            if len > 0 {
                let ka = key_f(&item);
                let kb = key_f(&self.items[len - 1]);
                same = ka.eq(&kb);
                proof {
                    assert(call_ensures(key_f, (&orig[i as int],), ka));
                    assert(call_ensures(key_f, (&before.last(),), kb));
                    assert(key_comparison(key_f, orig[i as int], before.last(), same));
                }
            }
            proof {
                keep = keep.push(!same);
                assert(keep.drop_last() =~= old_keep);
                let pre = orig.take(i + 1);
                assert(pre.drop_last() =~= orig.take(i as int));
                assert(pre.last() == item);
                assert(keep.take(i + 1) =~= keep);
                assert(keep.take(i as int) =~= old_keep);
                assert forall|j: int| 1 <= j < i + 1 implies key_comparison(
                    key_f,
                    orig[j],
                    filter_keep(orig.take(j), keep.take(j)).last(),
                    !#[trigger] keep[j],
                ) by {
                    assert(keep.take(j) =~= old_keep.take(j));
                    if j == i {
                        assert(old_keep.take(j) =~= old_keep);
                    }
                }
            }
            if !same {
                self.items.push(item);
            }
            proof {
                assert(rest@ =~= orig.subrange(i + 1, n as int));
            }
            i = i + 1;
        }
        proof {
            assert(orig.take(n as int) =~= orig);
            assert(dedup_by_key_decisions(orig, keep, key_f));
        }
    }
}


impl<T: Clone, C: VecConfigSpawn> Vec<T, C> {
    /// Clone this vector into a new buffer spawned from its own, sized for
    /// its items; spawning must succeed.
    pub fn clone(&self) -> (r: Self)
        requires
            self.wf(),
            self.spawn_result(self@.len()) is Ok,
        ensures
            r.wf(),
            clones_of(self@, r@),
            (r.spec_allocator(), r.spec_capacity()) == self.spawn_result(self@.len())->Ok_0,
    {
        let len: C::Index = self.len();
        proof {
            C::lemma_spawn_covers(
                self.spec_allocator(),
                vstd::layout::size_of::<T>(),
                vstd::layout::align_of::<T>(),
                self@.len(),
                false,
            );
        }
        match C::spawn_buffer::<T>(&self.alloc, len, false) {
            Ok((alloc, cap)) => {
                let mut inst: Self = Vec { items: std::vec::Vec::new(), capacity: cap, alloc };
                inst.extend_clones(self.items.as_slice());
                proof {
                    assert(inst@.subrange(0, inst@.len() as int) =~= inst@);
                }
                inst
            },
            Err(_) => vstd::pervasive::unreached(),
        }
    }

    /// Replace the items of this vector with clones of the items of `source`,
    /// keeping this vector's buffer, which must be able to make room for them.
    pub fn clone_from(&mut self, source: &Self)
        requires
            old(self).wf(),
            source.wf(),
            spec_reserve_result::<C>(
                old(self).spec_allocator(),
                vstd::layout::size_of::<T>(),
                vstd::layout::align_of::<T>(),
                0,
                old(self).spec_capacity(),
                source@.len(),
                spec_min_non_zero_cap::<T>(),
            ) is Ok,
        ensures
            final(self).wf(),
            clones_of(source@, final(self)@),
            final(self).spec_allocator() == old(self).spec_allocator(),
            final(self).spec_capacity() == spec_reserve_result::<C>(
                old(self).spec_allocator(),
                vstd::layout::size_of::<T>(),
                vstd::layout::align_of::<T>(),
                0,
                old(self).spec_capacity(),
                source@.len(),
                spec_min_non_zero_cap::<T>(),
            )->Ok_0,
    {
        self.truncate(C::Index::zero());
        self.extend_from_slice(source.items.as_slice());
        proof {
            assert(self@.subrange(0, self@.len() as int) =~= self@);
        }
    }
}

impl<C: VecConfig> Vec<u8, C> {
    /// Write bytes to the end of the vector. When room for all of `buf` cannot
    /// be obtained because of a capacity limit, as many bytes as fit in the
    /// spare capacity are written instead; other storage errors are returned.
    pub fn write(&mut self, buf: &[u8]) -> (r: Result<usize, StorageError>)
        requires
            old(self).wf(),
        ensures
            final(self).wf(),
            final(self).spec_allocator() == old(self).spec_allocator(),
            match old(self).reserve_result(buf@.len()) {
                Ok(c) => r == Ok::<usize, StorageError>(buf@.len() as usize)
                    && final(self).spec_capacity() == c && final(self)@ == old(self)@ + buf@,
                Err(StorageError::CapacityLimit) => r == Ok::<usize, StorageError>(
                    (old(self).spec_capacity() - old(self)@.len()) as usize,
                ) && final(self).spec_capacity() == old(self).spec_capacity() && final(self)@
                    == old(self)@ + buf@.take(old(self).spec_capacity() - old(self)@.len()),
                Err(e) => r == Err::<usize, StorageError>(e) && final(self)@ == old(self)@
                    && final(self).spec_capacity() == old(self).spec_capacity(),
            },
    {
        proof {
            self.lemma_wf_reserve(buf@.len());
            C::Index::lemma_max_bounds();
        }
        match self._try_reserve(buf.len()) {
            Ok(()) => {
                self.extend_clones(buf);
                proof {
                    assert(self@ =~= old(self)@ + buf@);
                }
                Ok(buf.len())
            },
            Err(StorageError::CapacityLimit) => {
                let spare: usize = self.capacity.to_usize() - self.items.len();
                let mut i: usize = 0;
                while i < spare
                    invariant
                        i <= spare < buf@.len(),
                        spare == self.spec_capacity() - old(self)@.len(),
                        self@ == old(self)@ + buf@.take(i as int),
                        self.spec_capacity() == old(self).spec_capacity(),
                        self.spec_allocator() == old(self).spec_allocator(),
                        old(self)@.len() + spare <= self.spec_capacity() <= C::Index::max_usize(),
                    decreases spare - i,
                {
                    self.items.push(buf[i]);
                    proof {
                        assert(buf@.take(i + 1) =~= buf@.take(i as int).push(buf@[i as int]));
                    }
                    i = i + 1;
                }
                Ok(spare)
            },
            Err(e) => Err(e),
        }
    }
}


impl<T, C: VecConfigSpawn> Vec<T, C> {
    /// The allocator and capacity of a new buffer for `cap` items spawned from this vector.
    pub open spec fn spawn_result(&self, cap: nat) -> Result<(C::Alloc, nat), StorageError> {
        C::spec_spawn(
            self.spec_allocator(),
            vstd::layout::size_of::<T>(),
            vstd::layout::align_of::<T>(),
            cap,
            false,
        )
    }

    /// Splits the collection into two at the given index, which must lie within
    /// the vector. Returns a new vector containing the elements `[index, len)`,
    /// in a buffer spawned from this one, which must succeed; this vector keeps
    /// the elements `[0, index)` and its capacity. When `index` is zero the two
    /// buffers are exchanged: the result takes the whole buffer and this vector
    /// keeps the spawned one, empty.
    pub fn split_off(&mut self, index: C::Index) -> (r: Self)
        requires
            old(self).wf(),
            index.as_nat() < old(self)@.len(),
            old(self).spawn_result((old(self)@.len() - index.as_nat()) as nat) is Ok,
        ensures
            final(self).wf(),
            r.wf(),
            index.as_nat() == 0 ==> r@ == old(self)@ && r.same_buffer(old(self)) && final(self)@
                == Seq::<T>::empty() && (final(self).spec_allocator(), final(self).spec_capacity())
                == old(self).spawn_result(old(self)@.len())->Ok_0,
            index.as_nat() > 0 ==> r@ == old(self)@.subrange(
                index.as_nat() as int,
                old(self)@.len() as int,
            ) && (r.spec_allocator(), r.spec_capacity()) == old(self).spawn_result(
                (old(self)@.len() - index.as_nat()) as nat,
            )->Ok_0 && final(self)@ == old(self)@.subrange(0, index.as_nat() as int)
                && final(self).same_buffer(old(self)),
    {
        let len: usize = self.items.len();
        let at: usize = index.to_usize();
        let move_len: C::Index = C::Index::from_usize(len - at);
        proof {
            move_len.lemma_index_bounds();
            C::lemma_spawn_covers(
                self.spec_allocator(),
                vstd::layout::size_of::<T>(),
                vstd::layout::align_of::<T>(),
                move_len.as_nat(),
                false,
            );
        }
        match C::spawn_buffer::<T>(&self.alloc, move_len, false) {
            Ok((alloc, cap)) => {
                let mut other: Self = Vec { items: std::vec::Vec::new(), capacity: cap, alloc };
                if at == 0 {
                    core::mem::swap(self, &mut other);
                } else {
                    other.items = self.items.split_off(at);
                }
                other
            },
            Err(_) => vstd::pervasive::unreached(),
        }
    }
}


impl<T, C: VecConfig> core::ops::Deref for Vec<T, C> {
    type Target = [T];

    fn deref(&self) -> (r: &[T])
        ensures
            r@ == self@,
    {
        self.items.as_slice()
    }
}

} // verus!
