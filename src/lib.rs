//! A client layer over the leveldb storage engine.
//!
//! The native engine is reached only by the embedding program; this crate
//! holds the logic around it, stated and proved: how keys become bytes,
//! how native error text becomes an [`error::Error`], which settings each
//! native options object is given, how a user ordering is bridged to the
//! engine's three-way comparison, the iterator's cursor state machine and
//! the record of a write batch.
#![allow(non_camel_case_types)]

pub mod key;
pub mod comparator;
pub mod iterator;
pub mod options;
pub mod cbits;
pub mod error;
pub mod batch;
pub mod bytes;
pub mod kv;
pub mod compaction;
pub mod size;

use vstd::prelude::*;

verus! {

/// The version of the engine that a database runs on.
pub trait Version {
    /// The major version.
    fn major() -> isize;

    /// The minor version.
    fn minor() -> isize;
}

} // verus!
