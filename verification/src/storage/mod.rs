//! Backing storage types for collections.
pub mod allocator;
pub mod fixed;
pub mod utils;

pub use self::allocator::{
    FixedAlloc, Global, RawAlloc, RawAllocDefault, SpillAlloc, ZeroizingAlloc,
};
pub use self::fixed::{
    aligned_byte_storage, array_storage, byte_storage, ArrayStorage, ByteStorage, Inline,
    SpillStorage, Thin, WithAlloc,
};
pub use self::utils::{array_layout, min_non_zero_cap, Layout};
