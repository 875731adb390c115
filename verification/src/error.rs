//! Error types raised by storage and insertion operations.
use vstd::prelude::*;

verus! {

/// The error raised when a requested memory layout cannot be represented:
/// its total size would exceed `isize::MAX` once rounded up to its alignment.
#[derive(Clone, Copy, Debug, PartialEq, Eq)]
pub struct LayoutError;

/// An enumeration of error types raised by storage implementations.
#[derive(Clone, Copy, Debug, PartialEq, Eq)]
pub enum StorageError {
    /// A memory allocation failed.
    AllocError,
    /// The limit of the current allocation was reached.
    CapacityLimit,
    /// The provided layout was not allocatable.
    LayoutError(LayoutError),
    /// The requested operation is not supported for this storage.
    Unsupported,
}

/// The generic description of each storage error.
pub open spec fn storage_error_text(e: StorageError) -> Seq<char> {
    match e {
        StorageError::AllocError => "Allocation error"@,
        StorageError::CapacityLimit => "Exceeded storage capacity limit"@,
        StorageError::LayoutError(_) => "Layout error"@,
        StorageError::Unsupported => "Unsupported"@,
    }
}

impl StorageError {
    /// Generic description of this error.
    pub fn as_str(&self) -> (r: &'static str)
        ensures
            r@ == storage_error_text(*self),
    {
        match self {
            StorageError::AllocError => "Allocation error",
            StorageError::CapacityLimit => "Exceeded storage capacity limit",
            StorageError::LayoutError(_) => "Layout error",
            StorageError::Unsupported => "Unsupported",
        }
    }
}

impl From<LayoutError> for StorageError {
    fn from(err: LayoutError) -> (r: StorageError)
    {
        StorageError::LayoutError(err)
    }
}

impl vstd::std_specs::convert::FromSpecImpl<LayoutError> for StorageError {
    open spec fn obeys_from_spec() -> bool {
        true
    }

    open spec fn from_spec(err: LayoutError) -> StorageError {
        StorageError::LayoutError(err)
    }
}

/// An error raised by insertion operations when appropriate storage
/// was not available. Includes the value that was to be inserted.
pub struct InsertionError<T> {
    pub(crate) error: StorageError,
    pub(crate) value: T,
}

impl<T> InsertionError<T> {
    /// The storage error that prevented the insertion.
    pub closed spec fn spec_error(&self) -> StorageError {
        self.error
    }

    /// The value that could not be inserted.
    pub closed spec fn spec_value(&self) -> T {
        self.value
    }

    /// Bundle a storage error with the value whose insertion failed.
    pub fn new(error: StorageError, value: T) -> (r: Self)
        ensures
            r.spec_error() == error,
            r.spec_value() == value,
    {
        InsertionError { error, value }
    }

    /// Generic description of this error.
    pub fn as_str(&self) -> (r: &'static str)
        ensures
            r@ == "Insertion error"@,
    {
        "Insertion error"
    }

    /// Get a reference to the contained `StorageError`.
    pub fn error(&self) -> (r: &StorageError)
        ensures
            *r == self.spec_error(),
    {
        &self.error
    }

    /// Unwrap the inner value of this error.
    pub fn into_value(self) -> (r: T)
        ensures
            r == self.spec_value(),
    {
        self.value
    }
}

} // verus!
