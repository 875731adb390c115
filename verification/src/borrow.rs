//! A clone-on-write vector: borrowed items, copied into an owned `Vec`
//! when ownership or mutation is needed.
use vstd::prelude::*;

use crate::error::StorageError;
use crate::storage::allocator::{RawAlloc, RawAllocDefault};
use crate::vec::config::VecNewIn;
use crate::vec::{clones_of, Vec};

verus! {

/// Either a borrowed slice of items, or an owned `Vec` allocating from `A`.
pub enum Cow<'b, T, A: RawAlloc> {
    /// Borrowed data.
    Borrowed(&'b [T]),
    /// Owned data.
    Owned(Vec<T, A>),
}

impl<'b, T, A: RawAlloc> View for Cow<'b, T, A> {
    type V = Seq<T>;

    /// The items, borrowed or owned.
    open spec fn view(&self) -> Seq<T> {
        match self {
            Cow::Borrowed(b) => b@,
            Cow::Owned(v) => v@,
        }
    }
}

/// The owned copy of `items` made in the allocation target `alloc_in`: its
/// allocator and capacity when the target can hold the items.
pub open spec fn owned_copy_result<T, A: RawAlloc, I: VecNewIn<T, Config = A>>(
    items: Seq<T>,
    alloc_in: I,
) -> Result<(A, nat), StorageError> {
    if items.len() > usize::MAX {
        Err(StorageError::CapacityLimit)
    } else {
        alloc_in.spec_new_in(items.len(), false)
    }
}

impl<'b, T, A: RawAlloc> Cow<'b, T, A> {
    /// An owned vector is well formed.
    pub open spec fn wf(&self) -> bool {
        match self {
            Cow::Borrowed(_) => true,
            Cow::Owned(v) => v.wf(),
        }
    }

    /// Determine if this instance is borrowed.
    pub fn is_borrowed(&self) -> (r: bool)
        ensures
            r == self is Borrowed,
    {
        match self {
            Cow::Borrowed(_) => true,
            Cow::Owned(_) => false,
        }
    }

    /// Determine if this instance is owned.
    pub fn is_owned(&self) -> (r: bool)
        ensures
            r == self is Owned,
    {
        match self {
            Cow::Borrowed(_) => false,
            Cow::Owned(_) => true,
        }
    }

    /// Access the items as a slice.
    pub fn as_slice(&self) -> (r: &[T])
        ensures
            r@ == self@,
    {
        match self {
            Cow::Borrowed(b) => b,
            Cow::Owned(v) => v.as_slice(),
        }
    }

    /// If necessary, try to convert `self` into an owned instance given an
    /// allocation target: borrowed items are cloned into a new vector
    /// created in `alloc_in`. Return the owned instance or a storage error.
    pub fn try_into_owned_in<I: VecNewIn<T, Config = A>>(self, alloc_in: I) -> (r: Result<
        Vec<T, A>,
        StorageError,
    >)
        where
            T: Clone,
        requires
            self.wf(),
        ensures
            self matches Cow::Owned(v) ==> r == Ok::<Vec<T, A>, StorageError>(v),
            self is Borrowed ==> match owned_copy_result::<T, A, I>(self@, alloc_in) {
                Ok((a, c)) => r matches Ok(v) && v.wf() && clones_of(self@, v@)
                    && v.spec_allocator() == a && v.spec_capacity() == c,
                Err(e) => r == Err::<Vec<T, A>, StorageError>(e),
            },
    {
        match self {
            Cow::Borrowed(b) => Vec::try_from_slice_in(b, alloc_in),
            Cow::Owned(v) => Ok(v),
        }
    }

    /// If necessary, convert `self` into an owned instance given an
    /// allocation target, which must be able to hold the borrowed items.
    pub fn into_owned_in<I: VecNewIn<T, Config = A>>(self, alloc_in: I) -> (r: Vec<T, A>)
        where
            T: Clone,
        requires
            self.wf(),
            self is Borrowed ==> owned_copy_result::<T, A, I>(self@, alloc_in) is Ok,
        ensures
            r.wf(),
            self matches Cow::Owned(v) ==> r == v,
            self is Borrowed ==> clones_of(self@, r@) && (r.spec_allocator(), r.spec_capacity())
                == owned_copy_result::<T, A, I>(self@, alloc_in)->Ok_0,
    {
        match self.try_into_owned_in(alloc_in) {
            Ok(v) => v,
            Err(_) => vstd::pervasive::unreached(),
        }
    }

    /// If necessary, convert `self` into an owned instance given an
    /// allocation target, which must be able to hold the borrowed items.
    /// Return a mutable reference to the owned instance.
    pub fn to_mut_in<I: VecNewIn<T, Config = A>>(&mut self, alloc_in: I) -> (r: &mut Vec<T, A>)
        where
            T: Clone,
        requires
            old(self).wf(),
            *old(self) is Borrowed ==> owned_copy_result::<T, A, I>(old(self)@, alloc_in) is Ok,
        ensures
            r.wf(),
            *old(self) matches Cow::Owned(v) ==> *r == v,
            *old(self) is Borrowed ==> clones_of(old(self)@, r@) && (
            r.spec_allocator(),
            r.spec_capacity(),
            ) == owned_copy_result::<T, A, I>(old(self)@, alloc_in)->Ok_0,
            *final(self) == Cow::<'b, T, A>::Owned(*final(r)),
    {
        if let Cow::Borrowed(b) = *self {
            let owned = Vec::from_slice_in(b, alloc_in);
            *self = Cow::Owned(owned);
        }
        match self {
            Cow::Owned(v) => v,
            Cow::Borrowed(_) => vstd::pervasive::unreached(),
        }
    }
}

impl<'b, T, A: RawAllocDefault> Cow<'b, T, A> {
    /// If necessary, try to convert `self` into an owned instance allocating
    /// from the default allocator instance.
    pub fn try_into_owned(self) -> (r: Result<Vec<T, A>, StorageError>)
        where
            T: Clone,
        requires
            self.wf(),
        ensures
            self matches Cow::Owned(v) ==> r == Ok::<Vec<T, A>, StorageError>(v),
            self is Borrowed ==> match owned_copy_result::<T, A, A>(self@, A::spec_default()) {
                Ok((a, c)) => r matches Ok(v) && v.wf() && clones_of(self@, v@)
                    && v.spec_allocator() == a && v.spec_capacity() == c,
                Err(e) => r == Err::<Vec<T, A>, StorageError>(e),
            },
    {
        self.try_into_owned_in(A::new_default())
    }

    /// If necessary, convert `self` into an owned instance allocating from
    /// the default allocator instance, which must be able to hold the
    /// borrowed items.
    pub fn into_owned(self) -> (r: Vec<T, A>)
        where
            T: Clone,
        requires
            self.wf(),
            self is Borrowed ==> owned_copy_result::<T, A, A>(self@, A::spec_default()) is Ok,
        ensures
            r.wf(),
            self matches Cow::Owned(v) ==> r == v,
            self is Borrowed ==> clones_of(self@, r@) && (r.spec_allocator(), r.spec_capacity())
                == owned_copy_result::<T, A, A>(self@, A::spec_default())->Ok_0,
    {
        self.into_owned_in(A::new_default())
    }

    /// If necessary, convert `self` into an owned instance allocating from
    /// the default allocator instance, which must be able to hold the
    /// borrowed items. Return a mutable reference to the owned instance.
    pub fn to_mut(&mut self) -> (r: &mut Vec<T, A>)
        where
            T: Clone,
        requires
            old(self).wf(),
            *old(self) is Borrowed ==> owned_copy_result::<T, A, A>(old(self)@, A::spec_default())
                is Ok,
        ensures
            r.wf(),
            *old(self) matches Cow::Owned(v) ==> *r == v,
            *old(self) is Borrowed ==> clones_of(old(self)@, r@) && (
            r.spec_allocator(),
            r.spec_capacity(),
            ) == owned_copy_result::<T, A, A>(old(self)@, A::spec_default())->Ok_0,
            *final(self) == Cow::<'b, T, A>::Owned(*final(r)),
    {
        self.to_mut_in(A::new_default())
    }
}

impl<'b, T, A: RawAllocDefault> Default for Cow<'b, T, A> {
    /// An owned, empty vector.
    fn default() -> (r: Self)
        ensures
            r matches Cow::Owned(v) && v.wf() && v@ == Seq::<T>::empty() && v.spec_allocator()
                == A::spec_default() && v.spec_capacity() == 0,
    {
        Cow::Owned(Vec::new())
    }
}

impl<'b, T, A: RawAlloc> From<&'b [T]> for Cow<'b, T, A> {
    fn from(borrow: &'b [T]) -> (r: Self) {
        Cow::Borrowed(borrow)
    }
}

impl<'b, T, A: RawAlloc> vstd::std_specs::convert::FromSpecImpl<&'b [T]> for Cow<'b, T, A> {
    open spec fn obeys_from_spec() -> bool {
        true
    }

    open spec fn from_spec(borrow: &'b [T]) -> Self {
        Cow::Borrowed(borrow)
    }
}

impl<'b, T, A: RawAlloc> From<Vec<T, A>> for Cow<'b, T, A> {
    fn from(vec: Vec<T, A>) -> (r: Self) {
        Cow::Owned(vec)
    }
}

impl<'b, T, A: RawAlloc> vstd::std_specs::convert::FromSpecImpl<Vec<T, A>> for Cow<'b, T, A> {
    open spec fn obeys_from_spec() -> bool {
        true
    }

    open spec fn from_spec(vec: Vec<T, A>) -> Self {
        Cow::Owned(vec)
    }
}

impl<'b, T, A: RawAlloc> core::ops::Deref for Cow<'b, T, A> {
    type Target = [T];

    fn deref(&self) -> (r: &[T])
        ensures
            r@ == self@,
    {
        self.as_slice()
    }
}

} // verus!
