//! The space taken by a key range.
use crate::key::Key;
use vstd::prelude::*;

verus! {

/// A database that can estimate the space a key range takes.
pub trait Size<K: Key> {
    /// The approximate number of bytes on disk of the entries whose keys
    /// lie from `start` to `stop`.
    fn approximate_size(&self, start: &K, stop: &K) -> u64;
}

} // verus!
