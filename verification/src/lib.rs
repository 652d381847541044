//! Fixed-capacity, allocation-free container primitives.
//!
//! Two containers built on caller-provided backing storage: a circular
//! buffer that overwrites its oldest retained element when full, and a
//! bounded vector that rejects a push when full. Neither container ever
//! allocates; the capacity of each equals the length of the storage it was
//! constructed with and never changes.

mod bounded;
mod ring;
mod storage;

pub use bounded::Vec;
pub use bounded::lemma_push_pop_round_trip;
pub use ring::CircularBuffer;
pub use ring::lemma_update_changes_one_slot;
pub use storage::Storage;
