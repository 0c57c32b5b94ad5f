//! Errors, and how the engine's error signal becomes one.
//!
//! After a call the engine either leaves its error slot empty, which means
//! success, or puts a message there. The embedding program copies the
//! message's bytes and releases the native buffer; [`translate`] turns what
//! it copied into a result. A message that is not UTF-8 text becomes an
//! encoding failure.
use vstd::prelude::*;

verus! {

/// What kind of call failed.
#[derive(Clone, Copy, PartialEq, Eq, Debug, Structural)]
pub enum ErrorKind {
    /// Opening a database failed: it is missing, already exists, or is corrupt.
    OpenFailure,
    /// A read, write or delete failed.
    IoFailure,
    /// The engine's error message was not UTF-8 text.
    EncodingFailure,
    /// A write batch was not committed; none of it was applied.
    CommitFailure,
}

/// The characters that `bytes` encode as UTF-8, or `None` where they are
/// not UTF-8.
pub uninterp spec fn utf8_decode(bytes: Seq<u8>) -> Option<Seq<char>>;

/// Relies on std's `String::from_utf8`: it succeeds exactly on UTF-8 text,
/// with the characters that the text encodes.
#[verifier::external_body]
fn decode_utf8(bytes: Vec<u8>) -> (r: Option<String>)
    ensures
        match r {
            Some(s) => utf8_decode(bytes@) == Some(s@),
            None => utf8_decode(bytes@) is None,
        },
{
    String::from_utf8(bytes).ok()
}

/// The message of an error whose native message was not UTF-8 text.
pub open spec fn encoding_message() -> Seq<char> {
    "the engine's error message is not UTF-8 text"@
}

/// The error that a native message gives, once decoded: of kind `kind` with
/// the decoded text, or an encoding failure where there is no text.
pub open spec fn error_of_text(kind: ErrorKind, text: Option<Seq<char>>) -> (ErrorKind, Seq<char>) {
    match text {
        Some(t) => (kind, t),
        None => (ErrorKind::EncodingFailure, encoding_message()),
    }
}

/// A leveldb error: its kind, and the message the engine gave.
#[derive(Debug)]
pub struct Error {
    kind: ErrorKind,
    message: String,
}

impl View for Error {
    type V = (ErrorKind, Seq<char>);

    closed spec fn view(&self) -> (ErrorKind, Seq<char>) {
        (self.kind, self.message@)
    }
}

impl Error {
    /// Creates an error of kind `kind` with the message `message`.
    pub fn new(kind: ErrorKind, message: String) -> (r: Error)
        ensures
            r@ == (kind, message@),
    {
        Error { kind, message }
    }

    /// Creates an error from the decoded native message: `None` stands for
    /// a message that was not UTF-8 text.
    pub fn from_decoded(kind: ErrorKind, decoded: Option<String>) -> (r: Error)
        ensures
            r@ == error_of_text(
                kind,
                match decoded {
                    Some(s) => Some(s@),
                    None => None,
                },
            ),
    {
        match decoded {
            Some(s) => Error { kind, message: s },
            None => Error {
                kind: ErrorKind::EncodingFailure,
                message: "the engine's error message is not UTF-8 text".to_owned(),
            },
        }
    }

    /// Creates an error from the bytes of a native error message.
    pub fn new_from_char(kind: ErrorKind, message: Vec<u8>) -> (r: Error)
        ensures
            r@ == error_of_text(kind, utf8_decode(message@)),
    {
        Error::from_decoded(kind, decode_utf8(message))
    }

    /// The kind of call that failed.
    pub fn kind(&self) -> (r: ErrorKind)
        ensures
            r == self@.0,
    {
        self.kind
    }

    /// The engine's message.
    pub fn description(&self) -> (r: &str)
        ensures
            r@ == self@.1,
    {
        self.message.as_str()
    }
}

/// The result of a native call in which failures are of kind `kind`, given
/// the bytes found in its error slot, if any.
pub fn translate(kind: ErrorKind, error: Option<Vec<u8>>) -> (r: Result<(), Error>)
    ensures
        match error {
            None => r is Ok,
            Some(m) => r matches Err(e) && e@ == error_of_text(kind, utf8_decode(m@)),
        },
{
    match error {
        None => Ok(()),
        Some(m) => Err(Error::new_from_char(kind, m)),
    }
}

} // verus!
