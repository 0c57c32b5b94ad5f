//! Byte strings handed over by the engine.
use vstd::prelude::*;

verus! {

/// A value read from the engine, owned by the caller.
#[derive(Debug)]
pub struct Bytes {
    bytes: Vec<u8>,
}

impl View for Bytes {
    type V = Seq<u8>;

    closed spec fn view(&self) -> Seq<u8> {
        self.bytes@
    }
}

impl Bytes {
    /// The bytes that the engine handed over, or `None` where it handed
    /// over none.
    pub fn from_raw(data: Option<Vec<u8>>) -> (r: Option<Bytes>)
        ensures
            match data {
                Some(d) => r matches Some(b) && b@ == d@,
                None => r is None,
            },
    {
        match data {
            Some(d) => Some(Bytes { bytes: d }),
            None => None,
        }
    }

    /// The bytes, borrowed.
    pub fn as_slice(&self) -> (r: &[u8])
        ensures
            r@ == self@,
    {
        self.bytes.as_slice()
    }

    /// The number of bytes.
    pub fn len(&self) -> (r: usize)
        ensures
            r == self@.len(),
    {
        self.bytes.len()
    }

    /// The bytes, as a vector.
    pub fn into_vec(self) -> (r: Vec<u8>)
        ensures
            r@ == self@,
    {
        self.bytes
    }
}

} // verus!
