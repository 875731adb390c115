# flex_alloc

A verified vector whose capacity follows a storage strategy chosen by a
configuration type: the global heap, a fixed buffer of items or bytes, a
fixed buffer that spills into an allocator once exhausted, an inline buffer,
a thin allocation holding a header and the items, page-granular secured
memory, or a custom allocator with its own index type and growth strategy.

Every operation is proved in Verus against a model in which a `Vec` holds a
sequence of items and a capacity; the configuration decides which capacity
each request for storage yields and which requests fail.

This is a capacity model, not a memory manager: whatever the configuration,
a vector's items are held in a standard `std::vec::Vec` on the ordinary
heap. An inline vector is not stored inline, a thin vector is not a single
pointer, fixed buffers hold no memory, and neither the zeroizing nor the
secure allocator wipes, locks or protects the memory holding a vector's
items. The page operations themselves (allocation filled with an indicator
byte, locking, protection, wiping and release) are in `app/`.

- `src/index.rs`: index types (`u8`, `usize`) and growth strategies.
- `src/storage/`: allocators, fixed buffers and layout arithmetic.
- `src/vec/`: the vector, its configurations, the layout of thin buffers
  (header and items in one allocation), its iterators and the properties
  relating its operations.
- `src/borrow.rs`: a clone-on-write vector, borrowed or owned.
- `src/secure.rs`: page rounding and the page-granular allocator.
- `src/shared.rs`: the decisions of the counter protocol that exposes a
  shielded value to concurrent readers.
- `app/`: the operating-system edges (page size queries, page allocation,
  locking and protection), the atomic counter and cell driven by the
  shared-access decisions, and the panicking error handlers.
