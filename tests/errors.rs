use leveldb::error::{translate, Error, ErrorKind};
use leveldb::kv::{commit_outcome, get_bytes_outcome, get_outcome, open_outcome, write_outcome};

#[test]
fn empty_error_slot_is_success() {
    assert!(translate(ErrorKind::IoFailure, None).is_ok());
    assert!(write_outcome(None).is_ok());
    assert!(commit_outcome(None).is_ok());
    assert!(open_outcome(None).is_ok());
}

#[test]
fn native_message_becomes_the_description() {
    let r = translate(ErrorKind::IoFailure, Some(b"IO error: disk full".to_vec()));
    let e = r.unwrap_err();
    assert_eq!(e.kind(), ErrorKind::IoFailure);
    assert_eq!(e.description(), "IO error: disk full");
}

#[test]
fn invalid_utf8_message_is_an_encoding_failure() {
    let e = translate(ErrorKind::IoFailure, Some(vec![b'a', 0xff, 0xfe])).unwrap_err();
    assert_eq!(e.kind(), ErrorKind::EncodingFailure);
    assert_eq!(e.description(), "the engine's error message is not UTF-8 text");
}

#[test]
fn each_call_has_its_failure_kind() {
    let open = open_outcome(Some(b"Invalid argument: missing (exists=false)".to_vec())).unwrap_err();
    assert_eq!(open.kind(), ErrorKind::OpenFailure);
    assert_eq!(open.description(), "Invalid argument: missing (exists=false)");
    let commit = commit_outcome(Some(b"Corruption".to_vec())).unwrap_err();
    assert_eq!(commit.kind(), ErrorKind::CommitFailure);
    let write = write_outcome(Some(b"IO error".to_vec())).unwrap_err();
    assert_eq!(write.kind(), ErrorKind::IoFailure);
}

#[test]
fn error_new_keeps_kind_and_message() {
    let e = Error::new(ErrorKind::CommitFailure, "boom".to_string());
    assert_eq!(e.kind(), ErrorKind::CommitFailure);
    assert_eq!(e.description(), "boom");
    let d = Error::from_decoded(ErrorKind::OpenFailure, None);
    assert_eq!(d.kind(), ErrorKind::EncodingFailure);
    let n = Error::new_from_char(ErrorKind::OpenFailure, Vec::new());
    assert_eq!(n.kind(), ErrorKind::OpenFailure);
    assert_eq!(n.description(), "");
}

#[test]
fn missing_key_reads_as_none() {
    assert_eq!(get_outcome(None, None).unwrap(), None);
}

#[test]
fn found_value_is_returned() {
    assert_eq!(get_outcome(Some(vec![1, 2]), None).unwrap(), Some(vec![1, 2]));
    let b = get_bytes_outcome(Some(vec![7]), None).unwrap().unwrap();
    assert_eq!(b.as_slice(), &[7]);
    assert_eq!(b.len(), 1);
    assert_eq!(b.into_vec(), vec![7]);
}

#[test]
fn failed_read_is_an_io_failure() {
    let e = get_outcome(Some(vec![1]), Some(b"IO error: read".to_vec())).unwrap_err();
    assert_eq!(e.kind(), ErrorKind::IoFailure);
    assert_eq!(e.description(), "IO error: read");
}
