//! Compaction of a key range.
use crate::key::Key;
use vstd::prelude::*;

verus! {

/// A database whose key range can be compacted.
pub trait Compaction<K: Key> {
    /// Compacts the entries whose keys lie from `start` to `limit`.
    fn compact(&self, start: &K, limit: &K);
}

} // verus!
