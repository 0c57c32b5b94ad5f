//! Orderings over keys, and the bridge that lets the engine use them.
//!
//! By default the engine orders keys by their bytes. A [`Comparator`]
//! replaces that order: the engine hands the bridge two byte strings and
//! expects a negative, zero or positive answer. Bytes that are no key's
//! byte form cannot be decoded, and the bridge must still answer, so such
//! bytes sort after every key, and among themselves by their bytes.
use crate::key::{i32_bytes, Key};
use std::cmp::Ordering;
use std::marker::PhantomData;
use vstd::prelude::*;
use vstd::std_specs::cmp::OrdSpec;

verus! {

/// A total order over keys, used by the engine in place of byte order.
pub trait Comparator {
    /// The type that the comparator compares.
    type K: Key;

    /// The order that `compare` computes. The default places every pair
    /// as equal; a comparator overrides it with its own order.
    open spec fn ordering(&self, a: Self::K, b: Self::K) -> Ordering {
        Ordering::Equal
    }

    /// The name under which the engine records the order.
    fn name(&self) -> &str;

    /// Compares two keys.
    fn compare(&self, a: &Self::K, b: &Self::K) -> (r: Ordering)
        ensures
            r == self.ordering(*a, *b),
    ;
}

/// A comparator for keys that are `Ord`: it orders them as `cmp` does.
pub struct OrdComparator<K: Key + Ord> {
    name: String,
    marker: PhantomData<K>,
}

impl<K: Key + Ord> OrdComparator<K> {
    #[verifier::type_invariant]
    spec fn inv(&self) -> bool {
        K::obeys_cmp_spec()
    }

    /// The name the comparator was made with.
    pub closed spec fn name_view(&self) -> Seq<char> {
        self.name@
    }

    /// Creates an `OrdComparator` that goes by the name `name`.
    pub fn new(name: &str) -> (r: OrdComparator<K>)
        requires
            K::obeys_cmp_spec(),
        ensures
            r.name_view() == name@,
    {
        OrdComparator { name: name.to_owned(), marker: PhantomData }
    }
}

impl<K: Key + Ord> Comparator for OrdComparator<K> {
    type K = K;

    open spec fn ordering(&self, a: K, b: K) -> Ordering {
        a.cmp_spec(&b)
    }

    fn name(&self) -> (r: &str)
        ensures
            r@ == self.name_view(),
    {
        self.name.as_str()
    }

    fn compare(&self, a: &K, b: &K) -> (r: Ordering) {
        proof {
            use_type_invariant(self);
        }
        a.cmp(b)
    }
}

/// Byte-lexicographic order of `a` and `b`, from position `i` on.
pub open spec fn lex_from(a: Seq<u8>, b: Seq<u8>, i: int) -> Ordering
    decreases a.len() - i,
{
    if i >= a.len() {
        if i >= b.len() {
            Ordering::Equal
        } else {
            Ordering::Less
        }
    } else if i >= b.len() {
        Ordering::Greater
    } else if a[i] < b[i] {
        Ordering::Less
    } else if a[i] > b[i] {
        Ordering::Greater
    } else {
        lex_from(a, b, i + 1)
    }
}

/// Byte-lexicographic order: the first differing byte decides, and a proper
/// prefix comes first.
pub open spec fn lex_order(a: Seq<u8>, b: Seq<u8>) -> Ordering {
    lex_from(a, b, 0)
}

/// The order in which the bridge places two byte strings: keys by the
/// comparator, then every undecodable byte string, by its bytes.
pub open spec fn bytes_order<C: Comparator>(c: &C, a: Seq<u8>, b: Seq<u8>) -> Ordering {
    if C::K::is_key_bytes(a) && C::K::is_key_bytes(b) {
        c.ordering(C::K::decode(a), C::K::decode(b))
    } else if C::K::is_key_bytes(a) {
        Ordering::Less
    } else if C::K::is_key_bytes(b) {
        Ordering::Greater
    } else {
        lex_order(a, b)
    }
}

/// The engine's encoding of an ordering: negative, zero or positive.
pub open spec fn ordering_sign(o: Ordering) -> int {
    match o {
        Ordering::Less => -1,
        Ordering::Equal => 0,
        Ordering::Greater => 1,
    }
}

/// The ordering with its sides swapped.
pub open spec fn flip(o: Ordering) -> Ordering {
    match o {
        Ordering::Less => Ordering::Greater,
        Ordering::Equal => Ordering::Equal,
        Ordering::Greater => Ordering::Less,
    }
}

/// Whether `f` is a total order on `T`: swapping the sides flips the
/// answer, only equal values are equal, and "before" is transitive.
pub open spec fn is_total_order<T>(f: spec_fn(T, T) -> Ordering) -> bool {
    &&& forall|a: T, b: T| #[trigger] f(a, b) == flip(f(b, a))
    &&& forall|a: T, b: T| #[trigger] f(a, b) == Ordering::Equal <==> a == b
    &&& forall|a: T, b: T, d: T|
        #[trigger] f(a, b) == Ordering::Less && #[trigger] f(b, d) == Ordering::Less ==> f(a, d)
            == Ordering::Less
}

proof fn lemma_lex_from_flip(a: Seq<u8>, b: Seq<u8>, i: int)
    requires
        0 <= i,
    ensures
        lex_from(a, b, i) == flip(lex_from(b, a, i)),
    decreases a.len() - i,
{
    if i < a.len() && i < b.len() && a[i] == b[i] {
        lemma_lex_from_flip(a, b, i + 1);
    }
}

proof fn lemma_lex_from_equal(a: Seq<u8>, b: Seq<u8>, i: int)
    requires
        0 <= i <= a.len(),
        i <= b.len(),
        a.subrange(0, i) == b.subrange(0, i),
    ensures
        lex_from(a, b, i) == Ordering::Equal <==> a == b,
    decreases a.len() - i,
{
    if i < a.len() && i < b.len() && a[i] == b[i] {
        assert(a.subrange(0, i + 1) =~= a.subrange(0, i).push(a[i]));
        assert(b.subrange(0, i + 1) =~= b.subrange(0, i).push(b[i]));
        lemma_lex_from_equal(a, b, i + 1);
    } else if a == b {
        assert(i == a.len() && i == b.len()) by {
            if i < a.len() {
                assert(a[i] == b[i]);
            }
        }
    } else if i == a.len() && i == b.len() {
        assert(a =~= a.subrange(0, i));
        assert(b =~= b.subrange(0, i));
    }
}

proof fn lemma_lex_from_transitive(a: Seq<u8>, b: Seq<u8>, d: Seq<u8>, i: int)
    requires
        0 <= i,
        lex_from(a, b, i) == Ordering::Less,
        lex_from(b, d, i) == Ordering::Less,
    ensures
        lex_from(a, d, i) == Ordering::Less,
    decreases a.len() - i,
{
    if i < a.len() && i < b.len() && i < d.len() && a[i] == b[i] && b[i] == d[i] {
        lemma_lex_from_transitive(a, b, d, i + 1);
    }
}

/// Byte-lexicographic order is a total order on byte strings.
pub proof fn lemma_lex_order_total()
    ensures
        is_total_order(|a: Seq<u8>, b: Seq<u8>| lex_order(a, b)),
{
    let f = |a: Seq<u8>, b: Seq<u8>| lex_order(a, b);
    assert forall|a: Seq<u8>, b: Seq<u8>| #[trigger] f(a, b) == flip(f(b, a)) by {
        lemma_lex_from_flip(a, b, 0);
    }
    assert forall|a: Seq<u8>, b: Seq<u8>| #[trigger] f(a, b) == Ordering::Equal <==> a == b by {
        assert(a.subrange(0, 0) =~= b.subrange(0, 0));
        lemma_lex_from_equal(a, b, 0);
    }
    assert forall|a: Seq<u8>, b: Seq<u8>, d: Seq<u8>|
        #[trigger] f(a, b) == Ordering::Less && #[trigger] f(b, d) == Ordering::Less implies f(a, d)
            == Ordering::Less by {
        lemma_lex_from_transitive(a, b, d, 0);
    }
}

/// Where a comparator orders keys totally, the bridge orders byte strings
/// totally: keys by the comparator, then undecodable bytes by their bytes.
pub proof fn lemma_bytes_order_total<C: Comparator>(c: &C)
    requires
        is_total_order(|a: C::K, b: C::K| c.ordering(a, b)),
    ensures
        is_total_order(|a: Seq<u8>, b: Seq<u8>| bytes_order(c, a, b)),
{
    let ko = |a: C::K, b: C::K| c.ordering(a, b);
    let lo = |a: Seq<u8>, b: Seq<u8>| lex_order(a, b);
    let f = |a: Seq<u8>, b: Seq<u8>| bytes_order(c, a, b);
    lemma_lex_order_total();
    assert forall|a: Seq<u8>, b: Seq<u8>| #[trigger] f(a, b) == flip(f(b, a)) by {
        let _ = ko(C::K::decode(a), C::K::decode(b));
        let _ = lo(a, b);
    }
    assert forall|a: Seq<u8>, b: Seq<u8>| #[trigger] f(a, b) == Ordering::Equal <==> a == b by {
        let _ = ko(C::K::decode(a), C::K::decode(b));
        let _ = lo(a, b);
        if C::K::is_key_bytes(a) && C::K::is_key_bytes(b) {
            C::K::lemma_decode_bytes(a);
            C::K::lemma_decode_bytes(b);
        }
    }
    assert forall|a: Seq<u8>, b: Seq<u8>, d: Seq<u8>|
        #[trigger] f(a, b) == Ordering::Less && #[trigger] f(b, d) == Ordering::Less implies f(a, d)
            == Ordering::Less by {
        let _ = ko(C::K::decode(a), C::K::decode(b));
        let _ = ko(C::K::decode(b), C::K::decode(d));
        let _ = lo(a, b);
        let _ = lo(b, d);
    }
}

/// Under byte order, the byte forms of non-negative `i32` keys sort as the
/// numbers do.
pub proof fn lemma_i32_byte_order(a: i32, b: i32)
    requires
        0 <= a,
        0 <= b,
    ensures
        lex_order(i32_bytes(a), i32_bytes(b)) == (if a < b {
            Ordering::Less
        } else if a == b {
            Ordering::Equal
        } else {
            Ordering::Greater
        }),
{
    let (a0, a1, a2, a3) = ((a >> 24u32) as u8, (a >> 16u32) as u8, (a >> 8u32) as u8, a as u8);
    let (b0, b1, b2, b3) = ((b >> 24u32) as u8, (b >> 16u32) as u8, (b >> 8u32) as u8, b as u8);
    assert((a < b) == (a0 < b0 || (a0 == b0 && (a1 < b1 || (a1 == b1 && (a2 < b2 || (a2 == b2
        && a3 < b3))))))) by (bit_vector)
        requires
            0 <= a,
            0 <= b,
            a0 == (a >> 24u32) as u8,
            a1 == (a >> 16u32) as u8,
            a2 == (a >> 8u32) as u8,
            a3 == a as u8,
            b0 == (b >> 24u32) as u8,
            b1 == (b >> 16u32) as u8,
            b2 == (b >> 8u32) as u8,
            b3 == b as u8,
    ;
    assert((a == b) == (a0 == b0 && a1 == b1 && a2 == b2 && a3 == b3)) by (bit_vector)
        requires
            a0 == (a >> 24u32) as u8,
            a1 == (a >> 16u32) as u8,
            a2 == (a >> 8u32) as u8,
            a3 == a as u8,
            b0 == (b >> 24u32) as u8,
            b1 == (b >> 16u32) as u8,
            b2 == (b >> 8u32) as u8,
            b3 == b as u8,
    ;
    let sa = i32_bytes(a);
    let sb = i32_bytes(b);
    reveal_with_fuel(lex_from, 5);
    assert(sa[0] == a0 && sa[1] == a1 && sa[2] == a2 && sa[3] == a3);
    assert(sb[0] == b0 && sb[1] == b1 && sb[2] == b2 && sb[3] == b3);
}

/// Compares two byte strings byte-lexicographically.
pub fn compare_lex(a: &[u8], b: &[u8]) -> (r: Ordering)
    ensures
        r == lex_order(a@, b@),
{
    let mut i: usize = 0;
    while i < a.len() && i < b.len()
        invariant
            i <= a.len(),
            i <= b.len(),
            lex_order(a@, b@) == lex_from(a@, b@, i as int),
        decreases a.len() - i,
    {
        if a[i] < b[i] {
            return Ordering::Less;
        } else if a[i] > b[i] {
            return Ordering::Greater;
        }
        i = i + 1;
    }
    if i < b.len() {
        Ordering::Less
    } else if i < a.len() {
        Ordering::Greater
    } else {
        Ordering::Equal
    }
}

/// Encodes an ordering as the engine expects it.
pub fn ordering_to_c(o: Ordering) -> (r: i32)
    ensures
        r as int == ordering_sign(o),
{
    match o {
        Ordering::Less => -1,
        Ordering::Equal => 0,
        Ordering::Greater => 1,
    }
}

/// Places two byte strings in the bridge's order, decoding keys where the
/// bytes are a key's byte form.
pub fn compare_bytes<C: Comparator>(c: &C, a: &[u8], b: &[u8]) -> (r: Ordering)
    ensures
        r == bytes_order(c, a@, b@),
{
    let a_ok = C::K::accepts(a);
    let b_ok = C::K::accepts(b);
    if a_ok && b_ok {
        let ka = C::K::from_u8(a);
        let kb = C::K::from_u8(b);
        c.compare(&ka, &kb)
    } else if a_ok {
        Ordering::Less
    } else if b_ok {
        Ordering::Greater
    } else {
        compare_lex(a, b)
    }
}

/// The answer the engine receives when it asks the comparator `c` to
/// compare the byte strings `a` and `b`.
pub fn compare_native<C: Comparator>(c: &C, a: &[u8], b: &[u8]) -> (r: i32)
    ensures
        r as int == ordering_sign(bytes_order(c, a@, b@)),
        -1 <= r <= 1,
{
    ordering_to_c(compare_bytes(c, a, b))
}

} // verus!
