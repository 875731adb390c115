//! Data structures with extra flexible storage.
pub mod error;
pub mod index;
pub mod storage;

pub use self::error::{InsertionError, LayoutError, StorageError};
pub mod vec;
pub mod secure;
pub mod shared;
pub mod borrow;
