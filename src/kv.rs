//! Reads and writes of single keys.
//!
//! The embedding program makes the engine's call; the functions here turn
//! what the call left behind into the call's result. A write (put or
//! delete) succeeds exactly when the engine left no error message; a read
//! also hands back the value it found, if any.
use crate::bytes::Bytes;
use crate::error::{error_of_text, translate, utf8_decode, Error, ErrorKind};
use vstd::prelude::*;

verus! {

/// The result of a get, as raw bytes, from the value that the engine found
/// (if any) and the bytes in its error slot (if any).
pub fn get_bytes_outcome(value: Option<Vec<u8>>, error: Option<Vec<u8>>) -> (r: Result<
    Option<Bytes>,
    Error,
>)
    ensures
        match error {
            Some(m) => r matches Err(e) && e@ == error_of_text(ErrorKind::IoFailure, utf8_decode(m@)),
            None => match value {
                Some(v) => r matches Ok(Some(b)) && b@ == v@,
                None => r matches Ok(None),
            },
        },
{
    match translate(ErrorKind::IoFailure, error) {
        Err(e) => Err(e),
        Ok(()) => Ok(Bytes::from_raw(value)),
    }
}

/// The result of a get, from the value that the engine found (if any) and
/// the bytes in its error slot (if any): a missing key is `Ok(None)`.
pub fn get_outcome(value: Option<Vec<u8>>, error: Option<Vec<u8>>) -> (r: Result<
    Option<Vec<u8>>,
    Error,
>)
    ensures
        match error {
            Some(m) => r matches Err(e) && e@ == error_of_text(ErrorKind::IoFailure, utf8_decode(m@)),
            None => match value {
                Some(v) => r matches Ok(Some(w)) && w@ == v@,
                None => r matches Ok(None),
            },
        },
{
    match get_bytes_outcome(value, error) {
        Err(e) => Err(e),
        Ok(None) => Ok(None),
        Ok(Some(b)) => Ok(Some(b.into_vec())),
    }
}

/// The result of a put or a delete, from the bytes in the engine's error
/// slot (if any).
pub fn write_outcome(error: Option<Vec<u8>>) -> (r: Result<(), Error>)
    ensures
        match error {
            Some(m) => r matches Err(e) && e@ == error_of_text(ErrorKind::IoFailure, utf8_decode(m@)),
            None => r is Ok,
        },
{
    translate(ErrorKind::IoFailure, error)
}

/// The result of committing a write batch, from the bytes in the engine's
/// error slot (if any). On failure none of the batch was applied.
pub fn commit_outcome(error: Option<Vec<u8>>) -> (r: Result<(), Error>)
    ensures
        match error {
            Some(m) => r matches Err(e) && e@ == error_of_text(ErrorKind::CommitFailure, utf8_decode(m@)),
            None => r is Ok,
        },
{
    translate(ErrorKind::CommitFailure, error)
}

/// The result of opening a database, from the bytes in the engine's error
/// slot (if any).
pub fn open_outcome(error: Option<Vec<u8>>) -> (r: Result<(), Error>)
    ensures
        match error {
            Some(m) => r matches Err(e) && e@ == error_of_text(ErrorKind::OpenFailure, utf8_decode(m@)),
            None => r is Ok,
        },
{
    translate(ErrorKind::OpenFailure, error)
}

} // verus!
