use leveldb::bytes::Bytes;
use leveldb::cbits::{c_comparator, c_options, c_readoptions, c_writeoptions, Compression};
use leveldb::options::{Options, ReadOptions, WriteOptions};

#[test]
fn options_defaults() {
    let o = Options::new();
    assert!(!o.create_if_missing);
    assert!(!o.error_if_exists);
    assert!(!o.paranoid_checks);
    assert_eq!(o.write_buffer_size, None);
    assert_eq!(o.max_open_files, None);
    assert_eq!(o.block_size, None);
    assert_eq!(o.block_restart_interval, None);
    assert_eq!(o.compression, Compression::No);
}

#[test]
fn read_and_write_option_defaults() {
    assert!(!WriteOptions::new().sync);
    let r: ReadOptions<u32> = ReadOptions::new();
    assert!(!r.verify_checksums);
    assert!(r.fill_cache);
    assert_eq!(r.snapshot, None);
    let pinned = r.with_snapshot(5);
    assert_eq!(pinned.snapshot, Some(5));
    assert!(pinned.fill_cache);
}

#[test]
fn native_options_follow_the_options() {
    let mut o = Options::new();
    o.create_if_missing = true;
    o.block_size = Some(4096);
    o.max_open_files = Some(100);
    o.compression = Compression::Snappy;
    let c = c_options(&o, true);
    assert_eq!(c.create_if_missing, 1);
    assert_eq!(c.error_if_exists, 0);
    assert_eq!(c.paranoid_checks, 0);
    assert_eq!(c.block_size, Some(4096));
    assert_eq!(c.max_open_files, Some(100));
    assert_eq!(c.write_buffer_size, None);
    assert_eq!(c.block_restart_interval, None);
    assert_eq!(c.compression, Compression::Snappy);
    assert!(c.comparator);
    assert!(!c_options(&Options::new(), false).comparator);
}

#[test]
fn native_read_and_write_options_follow_the_options() {
    let mut w = WriteOptions::new();
    assert_eq!(c_writeoptions(w).sync, 0);
    w.sync = true;
    assert_eq!(c_writeoptions(w).sync, 1);
    let mut r: ReadOptions<&str> = ReadOptions::new();
    r.verify_checksums = true;
    let c = c_readoptions(r.with_snapshot("snap"));
    assert_eq!(c.verify_checksums, 1);
    assert_eq!(c.fill_cache, 1);
    assert_eq!(c.snapshot, Some("snap"));
}

#[test]
fn bytes_from_raw() {
    assert!(Bytes::from_raw(None).is_none());
    let b = Bytes::from_raw(Some(vec![4, 5])).unwrap();
    assert_eq!(b.len(), 2);
    assert_eq!(b.into_vec(), vec![4, 5]);
}

#[test]
fn comparator_name_is_nul_terminated() {
    assert_eq!(c_comparator("foo").name, vec![b'f', b'o', b'o', 0]);
    assert_eq!(c_comparator("").name, vec![0]);
}

#[test]
fn lib_test_create_options() {
    Options::new();
}

#[test]
fn test_test_create_options() {
    Options::new();
}

#[test]
fn database_test_create_options() {
    Options::new();
}
