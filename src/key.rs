//! Keys and their byte form.
use vstd::prelude::*;
use vstd::slice::slice_to_vec;

verus! {

/// A type that can serve as a database key.
///
/// The engine stores keys as opaque bytes, so every key has one byte form,
/// and a byte form read back from the engine decodes to the key it came from.
pub trait Key: Sized {
    /// The bytes that stand for this key in the store.
    spec fn key_bytes(&self) -> Seq<u8>;

    /// Whether `bytes` is the byte form of some key.
    spec fn is_key_bytes(bytes: Seq<u8>) -> bool;

    /// The key that a byte form stands for.
    spec fn decode(bytes: Seq<u8>) -> Self;

    /// A key's byte form is well formed and decodes back to the key.
    proof fn lemma_round_trip(k: Self)
        ensures
            Self::is_key_bytes(k.key_bytes()),
            Self::decode(k.key_bytes()) == k,
    ;

    /// A well-formed byte form is the byte form of the key it decodes to.
    proof fn lemma_decode_bytes(bytes: Seq<u8>)
        requires
            Self::is_key_bytes(bytes),
        ensures
            Self::decode(bytes).key_bytes() == bytes,
    ;

    /// Whether `key` is the byte form of some key.
    fn accepts(key: &[u8]) -> (r: bool)
        ensures
            r == Self::is_key_bytes(key@),
    ;

    /// Reads a key back from its byte form.
    fn from_u8(key: &[u8]) -> (r: Self)
        requires
            Self::is_key_bytes(key@),
        ensures
            r == Self::decode(key@),
    ;

    /// Hands the key's byte form to `f` and returns what `f` returns.
    fn as_slice<T, F: Fn(&[u8]) -> T>(&self, f: F) -> (r: T)
        requires
            forall|b: &[u8]| b@ == self.key_bytes() ==> f.requires((b,)),
        ensures
            exists|b: &[u8]| b@ == self.key_bytes() && f.ensures((b,), r),
    ;
}

/// Reads a key of type `K` back from its byte form.
pub fn from_u8<K: Key>(key: &[u8]) -> (r: K)
    requires
        K::is_key_bytes(key@),
    ensures
        r == K::decode(key@),
{
    K::from_u8(key)
}

/// A key's byte form as an owned vector.
pub fn key_to_vec<K: Key>(k: &K) -> (r: Vec<u8>)
    ensures
        r@ == k.key_bytes(),
{
    k.as_slice(|b: &[u8]| -> (v: Vec<u8>)
        ensures
            v@ == b@,
        { slice_to_vec(b) })
}

/// Reads a key back from bytes, or `None` where they are no key's byte form.
pub fn decode_key<K: Key>(bytes: &[u8]) -> (r: Option<K>)
    ensures
        r == (if K::is_key_bytes(bytes@) {
            Some(K::decode(bytes@))
        } else {
            None
        }),
{
    if K::accepts(bytes) {
        Some(K::from_u8(bytes))
    } else {
        None
    }
}

/// The big-endian two's-complement bytes of a 32-bit integer.
pub open spec fn i32_bytes(k: i32) -> Seq<u8> {
    seq![(k >> 24u32) as u8, (k >> 16u32) as u8, (k >> 8u32) as u8, k as u8]
}

/// The 32-bit integer whose big-endian two's-complement bytes are `b`.
pub open spec fn i32_of_bytes(b: Seq<u8>) -> i32 {
    ((b[0] as i32) << 24u32) | ((b[1] as i32) << 16u32) | ((b[2] as i32) << 8u32) | (b[3] as i32)
}

proof fn lemma_i32_bytes_round_trip(k: i32)
    ensures
        i32_of_bytes(i32_bytes(k)) == k,
{
    let b0 = (k >> 24u32) as u8;
    let b1 = (k >> 16u32) as u8;
    let b2 = (k >> 8u32) as u8;
    let b3 = k as u8;
    assert((((b0 as i32) << 24u32) | ((b1 as i32) << 16u32) | ((b2 as i32) << 8u32) | (b3 as i32))
        == k) by (bit_vector)
        requires
            b0 == (k >> 24u32) as u8,
            b1 == (k >> 16u32) as u8,
            b2 == (k >> 8u32) as u8,
            b3 == k as u8,
    ;
}

proof fn lemma_i32_of_bytes_round_trip(b: Seq<u8>)
    requires
        b.len() == 4,
    ensures
        i32_bytes(i32_of_bytes(b)) == b,
{
    let (b0, b1, b2, b3) = (b[0], b[1], b[2], b[3]);
    let k = i32_of_bytes(b);
    assert((k >> 24u32) as u8 == b0 && (k >> 16u32) as u8 == b1 && (k >> 8u32) as u8 == b2
        && k as u8 == b3) by (bit_vector)
        requires
            k == ((b0 as i32) << 24u32) | ((b1 as i32) << 16u32) | ((b2 as i32) << 8u32) | (
            b3 as i32),
    ;
    assert(i32_bytes(k) =~= b);
}

impl Key for i32 {
    open spec fn key_bytes(&self) -> Seq<u8> {
        i32_bytes(*self)
    }

    open spec fn is_key_bytes(bytes: Seq<u8>) -> bool {
        bytes.len() == 4
    }

    open spec fn decode(bytes: Seq<u8>) -> i32 {
        i32_of_bytes(bytes)
    }

    proof fn lemma_round_trip(k: i32) {
        lemma_i32_bytes_round_trip(k);
    }

    proof fn lemma_decode_bytes(bytes: Seq<u8>) {
        lemma_i32_of_bytes_round_trip(bytes);
    }

    fn accepts(key: &[u8]) -> (r: bool) {
        key.len() == 4
    }

    fn from_u8(key: &[u8]) -> (r: i32) {
        ((key[0] as i32) << 24u32) | ((key[1] as i32) << 16u32) | ((key[2] as i32) << 8u32) | (
        key[3] as i32)
    }

    fn as_slice<T, F: Fn(&[u8]) -> T>(&self, f: F) -> (r: T) {
        let k = *self;
        let dst: [u8; 4] = [(k >> 24u32) as u8, (k >> 16u32) as u8, (k >> 8u32) as u8, k as u8];
        let s = dst.as_slice();
        assert(s@ =~= i32_bytes(k));
        f(s)
    }
}

/// Decoding a key's byte form gives back the key.
pub proof fn lemma_key_round_trip<K: Key>(k: K)
    ensures
        K::is_key_bytes(k.key_bytes()),
        K::decode(k.key_bytes()) == k,
{
    K::lemma_round_trip(k);
}

/// Distinct keys have distinct byte forms, so no two keys collide in the
/// store.
pub proof fn lemma_key_bytes_injective<K: Key>(a: K, b: K)
    requires
        a.key_bytes() == b.key_bytes(),
    ensures
        a == b,
{
    K::lemma_round_trip(a);
    K::lemma_round_trip(b);
}

} // verus!
