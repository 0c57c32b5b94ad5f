//! What the engine's native objects are given.
//!
//! The embedding program owns the native objects; each type here lists, as
//! plain values, what one native object of that kind receives through its
//! setters, so that the choice of settings is made, and checked, here.
use crate::batch::BatchOp;
use crate::options::{Options, ReadOptions, WriteOptions};
use vstd::prelude::*;
use vstd::slice::slice_to_vec;
use vstd::string::StringSliceAdditionalSpecFns;

verus! {

/// Whether the engine compresses the blocks it writes.
#[derive(Clone, Copy, PartialEq, Eq, Debug, Structural)]
pub enum Compression {
    /// Blocks are written as they are.
    No,
    /// Blocks are compressed with Snappy.
    Snappy,
}

/// The engine's encoding of a flag.
pub open spec fn flag(b: bool) -> u8 {
    if b {
        1
    } else {
        0
    }
}

fn flag_of(b: bool) -> (r: u8)
    ensures
        r == flag(b),
{
    if b {
        1
    } else {
        0
    }
}

/// The settings of a native options object. An optional size or count is
/// set only where it is `Some`; the engine's own default holds elsewhere.
#[derive(Debug)]
pub struct leveldb_options_t {
    pub create_if_missing: u8,
    pub error_if_exists: u8,
    pub paranoid_checks: u8,
    pub write_buffer_size: Option<usize>,
    pub max_open_files: Option<i32>,
    pub block_size: Option<usize>,
    pub block_restart_interval: Option<i32>,
    pub compression: Compression,
    /// Whether the database's comparator is installed on the object.
    pub comparator: bool,
}

/// The settings of a native write options object.
#[derive(Debug)]
pub struct leveldb_writeoptions_t {
    pub sync: u8,
}

/// The settings of a native read options object; `S` is the snapshot
/// handle.
pub struct leveldb_readoptions_t<S> {
    pub verify_checksums: u8,
    pub fill_cache: u8,
    pub snapshot: Option<S>,
}

/// The operations recorded in a native write batch, in the order they were
/// made.
#[derive(Debug)]
pub struct leveldb_writebatch_t {
    pub ops: Vec<BatchOp>,
}

/// What a native comparator object is registered with, besides its three
/// callbacks: the name that its name callback hands to the engine, as the
/// NUL-terminated bytes the engine reads.
#[derive(Debug)]
pub struct leveldb_comparator_t {
    pub name: Vec<u8>,
}

/// The registration of a comparator named `name`: its bytes, then a NUL.
pub fn c_comparator(name: &str) -> (r: leveldb_comparator_t)
    ensures
        r.name@ == name.spec_bytes().push(0u8),
{
    let mut bytes = slice_to_vec(name.as_bytes());
    bytes.push(0u8);
    leveldb_comparator_t { name: bytes }
}

/// The settings of the native options object for opening a database with
/// `options`, with a comparator installed where `comparator` holds.
pub fn c_options(options: &Options, comparator: bool) -> (r: leveldb_options_t)
    ensures
        r.create_if_missing == flag(options.create_if_missing),
        r.error_if_exists == flag(options.error_if_exists),
        r.paranoid_checks == flag(options.paranoid_checks),
        r.write_buffer_size == options.write_buffer_size,
        r.max_open_files == options.max_open_files,
        r.block_size == options.block_size,
        r.block_restart_interval == options.block_restart_interval,
        r.compression == options.compression,
        r.comparator == comparator,
{
    leveldb_options_t {
        create_if_missing: flag_of(options.create_if_missing),
        error_if_exists: flag_of(options.error_if_exists),
        paranoid_checks: flag_of(options.paranoid_checks),
        write_buffer_size: options.write_buffer_size,
        max_open_files: options.max_open_files,
        block_size: options.block_size,
        block_restart_interval: options.block_restart_interval,
        compression: options.compression,
        comparator,
    }
}

/// The settings of the native write options object for `options`.
pub fn c_writeoptions(options: WriteOptions) -> (r: leveldb_writeoptions_t)
    ensures
        r.sync == flag(options.sync),
{
    leveldb_writeoptions_t { sync: flag_of(options.sync) }
}

/// The settings of the native read options object for `options`.
pub fn c_readoptions<S>(options: ReadOptions<S>) -> (r: leveldb_readoptions_t<S>)
    ensures
        r.verify_checksums == flag(options.verify_checksums),
        r.fill_cache == flag(options.fill_cache),
        r.snapshot == options.snapshot,
{
    leveldb_readoptions_t {
        verify_checksums: flag_of(options.verify_checksums),
        fill_cache: flag_of(options.fill_cache),
        snapshot: options.snapshot,
    }
}

} // verus!
