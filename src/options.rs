//! The options of the three kinds of calls: opening a database, reading
//! and writing.
use crate::cbits::Compression;
use vstd::prelude::*;

verus! {

/// Options to consider when opening a new or pre-existing database.
///
/// The comparator is not among them: it is handed to the opening call
/// itself.
pub struct Options {
    /// Create the database if it is missing. Default: false.
    pub create_if_missing: bool,
    /// Report an error if the database already exists. Default: false.
    pub error_if_exists: bool,
    /// Report an error as soon as corruption is detected. Default: false.
    pub paranoid_checks: bool,
    /// Overrides the size of the write buffer. Default: the engine's.
    pub write_buffer_size: Option<usize>,
    /// Overrides the number of files kept open. Default: the engine's.
    pub max_open_files: Option<i32>,
    /// Overrides the size of the blocks written and cached. Default: the engine's.
    pub block_size: Option<usize>,
    /// Overrides the interval between restart points. Default: the engine's.
    pub block_restart_interval: Option<i32>,
    /// Whether blocks are written compressed. Default: `Compression::No`.
    pub compression: Compression,
}

impl Options {
    /// Options with the default settings.
    pub fn new() -> (r: Options)
        ensures
            !r.create_if_missing,
            !r.error_if_exists,
            !r.paranoid_checks,
            r.write_buffer_size is None,
            r.max_open_files is None,
            r.block_size is None,
            r.block_restart_interval is None,
            r.compression == Compression::No,
    {
        Options {
            create_if_missing: false,
            error_if_exists: false,
            paranoid_checks: false,
            write_buffer_size: None,
            max_open_files: None,
            block_size: None,
            block_restart_interval: None,
            compression: Compression::No,
        }
    }
}

/// The options of a write.
#[derive(Clone, Copy, Debug)]
pub struct WriteOptions {
    /// Wait until the write is durable before acknowledging it. Default: false.
    pub sync: bool,
}

impl WriteOptions {
    /// Write options with the default settings.
    pub fn new() -> (r: WriteOptions)
        ensures
            !r.sync,
    {
        WriteOptions { sync: false }
    }
}

/// The options of a read.
///
/// `S` is the embedding program's handle of a snapshot: a read with a
/// snapshot sees the database as it was when the snapshot was taken.
pub struct ReadOptions<S> {
    /// Verify the stored checksums of what is read. Default: false.
    pub verify_checksums: bool,
    /// Keep what is read in the engine's cache. Default: true.
    pub fill_cache: bool,
    /// The snapshot to read from. Default: none, the live database.
    pub snapshot: Option<S>,
}

impl<S> ReadOptions<S> {
    /// Read options with the default settings.
    pub fn new() -> (r: ReadOptions<S>)
        ensures
            !r.verify_checksums,
            r.fill_cache,
            r.snapshot is None,
    {
        ReadOptions { verify_checksums: false, fill_cache: true, snapshot: None }
    }

    /// The same options, pinned to `snapshot`.
    pub fn with_snapshot(self, snapshot: S) -> (r: ReadOptions<S>)
        ensures
            r.verify_checksums == self.verify_checksums,
            r.fill_cache == self.fill_cache,
            r.snapshot == Some(snapshot),
    {
        ReadOptions { snapshot: Some(snapshot), ..self }
    }
}

} // verus!
