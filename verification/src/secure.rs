//! Page-granular allocation for secured memory.
//!
//! Secured buffers are obtained in whole memory pages, so that they can be
//! locked in physical memory and have their access protection changed.
use vstd::prelude::*;

use crate::error::StorageError;
use crate::storage::allocator::RawAlloc;
use crate::storage::utils::Layout;

verus! {

/// An error which may result from a memory operation such as locking.
#[derive(Debug, Copy, Clone, PartialEq, Eq, PartialOrd, Ord)]
pub struct MemoryError;

/// Enumeration of options for setting the memory protection mode.
#[derive(Debug, Copy, Clone, PartialEq, Eq, PartialOrd, Ord)]
pub enum ProtectionMode {
    /// No read or write access.
    NoAccess,
    /// Read-only access.
    ReadOnly,
    /// Read-write access.
    ReadWrite,
}

impl Default for ProtectionMode {
    fn default() -> (r: Self)
        ensures
            r == ProtectionMode::ReadWrite,
    {
        ProtectionMode::ReadWrite
    }
}

/// A power of two: a single bit is set.
pub open spec fn is_page_size(page_size: usize) -> bool {
    page_size != 0 && page_size & ((page_size - 1) as usize) == 0
}

/// The smallest multiple of `page_size` that is at least `len`.
pub open spec fn spec_page_rounded(len: nat, page_size: nat) -> nat {
    if len % page_size == 0 {
        len
    } else {
        (len + page_size - len % page_size) as nat
    }
}

/// Round up a length of bytes to a multiple of the page size, which must be a
/// power of two; the rounded length must be representable.
pub fn page_rounded_length(len: usize, page_size: usize) -> (r: usize)
    requires
        is_page_size(page_size),
        spec_page_rounded(len as nat, page_size as nat) <= usize::MAX,
    ensures
        r == spec_page_rounded(len as nat, page_size as nat),
{
    let rem: usize = len % page_size;
    let pad: usize = if rem == 0 {
        0
    } else {
        page_size - rem
    };
    len + pad
}

/// A rounded length is the least multiple of the page size that holds `len`.
pub proof fn law_page_rounded(len: nat, page_size: nat)
    requires
        page_size > 0,
    ensures
        spec_page_rounded(len, page_size) % page_size == 0,
        len <= spec_page_rounded(len, page_size) < len + page_size,
{
    let r = spec_page_rounded(len, page_size);
    if len % page_size != 0 {
        assert((len + page_size - len % page_size) % (page_size as int) == 0) by (nonlinear_arith)
            requires
                page_size > 0,
        {
            vstd::arithmetic::div_mod::lemma_fundamental_div_mod(len as int, page_size as int);
            let q = len as int / page_size as int;
            assert(len + page_size - len % page_size == (q + 1) * page_size);
            vstd::arithmetic::div_mod::lemma_mod_multiples_basic(q + 1, page_size as int);
        }
    }
}

/// The grants of an allocator that obtains memory in whole pages of
/// `page_size` bytes, so that the memory can be locked and protected: every
/// non-empty grant is rounded up to a multiple of the page size. Only the
/// grants are modelled here; obtaining, filling, locking, wiping and freeing
/// the pages is done by the application layer (`secure_allocate`,
/// `secure_deallocate`).
#[derive(Debug, Copy, Clone, PartialEq, Eq)]
pub struct SecureAlloc {
    page_size: usize,
}

impl SecureAlloc {
    /// The page size of the allocator.
    pub closed spec fn spec_page_size(&self) -> usize {
        self.page_size
    }

    /// An allocator for pages of `page_size` bytes, which must be a power of two.
    pub fn with_page_size(page_size: usize) -> (r: Option<SecureAlloc>)
        ensures
            is_page_size(page_size) ==> (r matches Some(a) && a.spec_page_size() == page_size),
            !is_page_size(page_size) ==> r is None,
    {
        if page_size != 0 && page_size & (page_size - 1) == 0 {
            Some(SecureAlloc { page_size })
        } else {
            None
        }
    }

    /// The page size of the allocator.
    pub fn page_size(&self) -> (r: usize)
        ensures
            r == self.spec_page_size(),
    {
        self.page_size
    }

    /// The bytes granted for a request of `size` bytes: nothing for an empty
    /// request, otherwise whole pages, or an allocation error when the page
    /// size is not a power of two or the rounded size is not representable.
    pub open spec fn spec_grant(&self, size: usize) -> Result<usize, StorageError> {
        if size == 0 {
            Ok(0)
        } else if !is_page_size(self.spec_page_size()) {
            Err(StorageError::AllocError)
        } else if spec_page_rounded(size as nat, self.spec_page_size() as nat) > usize::MAX {
            Err(StorageError::AllocError)
        } else {
            Ok(spec_page_rounded(size as nat, self.spec_page_size() as nat) as usize)
        }
    }

    fn grant(&self, size: usize) -> (r: Result<usize, StorageError>)
        ensures
            r == self.spec_grant(size),
    {
        if size == 0 {
            return Ok(0);
        }
        if !(self.page_size != 0 && self.page_size & (self.page_size - 1) == 0) {
            return Err(StorageError::AllocError);
        }
        let rem: usize = size % self.page_size;
        if rem != 0 && size > usize::MAX - (self.page_size - rem) {
            Err(StorageError::AllocError)
        } else {
            Ok(page_rounded_length(size, self.page_size))
        }
    }
}

impl SecureAlloc {
    /// The length of memory whose protection mode changes when a secured
    /// buffer of `len` bytes is protected: zero for an empty buffer, whose
    /// protection is left alone; otherwise the whole pages holding it, or an
    /// allocation error when they cannot be counted.
    pub fn protected_length(&self, len: usize) -> (r: Result<usize, StorageError>)
        ensures
            r == self.spec_grant(len),
            r matches Ok(n) ==> (n == 0 <==> len == 0),
            len > 0 ==> (r matches Ok(n) ==> n as nat == spec_page_rounded(
                len as nat,
                self.spec_page_size() as nat,
            )),
    {
        self.grant(len)
    }
}

impl RawAlloc for SecureAlloc {
    open spec fn spec_alloc(&self, size: usize) -> Result<usize, StorageError> {
        self.spec_grant(size)
    }

    /// Resizing always moves into a fresh allocation.
    open spec fn spec_resize(&self, old_layout: Layout, new_layout: Layout) -> Result<
        usize,
        StorageError,
    > {
        self.spec_alloc(new_layout.size)
    }

    open spec fn spec_duplicate(&self) -> Option<Self> {
        Some(*self)
    }

    proof fn lemma_grant_covers(&self, old_layout: Layout, new_layout: Layout) {
        if is_page_size(self.spec_page_size()) && new_layout.size > 0 {
            law_page_rounded(new_layout.size as nat, self.spec_page_size() as nat);
        }
    }

    fn try_alloc(&self, layout: Layout) -> (r: Result<usize, StorageError>) {
        self.grant(layout.size)
    }

    fn try_resize(&self, old_layout: Layout, new_layout: Layout) -> (r: Result<
        usize,
        StorageError,
    >) {
        self.grant(new_layout.size)
    }

    fn try_duplicate(&self) -> (r: Option<Self>) {
        Some(*self)
    }
}

} // verus!
