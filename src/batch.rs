//! Write batches: operations gathered to be committed as one.
//!
//! A [`Writebatch`] records puts and deletes in the order they are made.
//! The embedding program commits it by handing its record to the engine,
//! which applies all of it or none of it. [`Writebatch::iterate`] replays
//! the record to a visitor, in the same order.
use crate::cbits::leveldb_writebatch_t;
use crate::key::{key_to_vec, Key};
use std::marker::PhantomData;
use vstd::prelude::*;
use vstd::slice::slice_to_vec;

verus! {

/// An operation of a batch, as the model sees it.
pub enum BatchRecord {
    /// Store the value (second) under the key bytes (first).
    Put(Seq<u8>, Seq<u8>),
    /// Remove the key bytes.
    Delete(Seq<u8>),
}

/// An operation of a batch.
#[derive(Debug)]
pub enum BatchOp {
    /// Store `value` under `key`.
    Put { key: Vec<u8>, value: Vec<u8> },
    /// Remove `key`.
    Delete { key: Vec<u8> },
}

impl View for BatchOp {
    type V = BatchRecord;

    open spec fn view(&self) -> BatchRecord {
        match self {
            BatchOp::Put { key, value } => BatchRecord::Put(key@, value@),
            BatchOp::Delete { key } => BatchRecord::Delete(key@),
        }
    }
}

/// The key bytes of a batch operation.
pub open spec fn record_key(r: BatchRecord) -> Seq<u8> {
    match r {
        BatchRecord::Put(k, _) => k,
        BatchRecord::Delete(k) => k,
    }
}

/// The operations of a record, in order.
pub open spec fn ops_view(ops: Seq<BatchOp>) -> Seq<BatchRecord> {
    ops.map_values(|op: BatchOp| op@)
}

/// A visitor of the operations of a batch.
pub trait WritebatchIterator {
    /// The database key type this iterates over.
    type K: Key;

    /// The operations shown to the visitor so far, oldest first. A visitor
    /// that keeps no account of them leaves this empty, and then cannot
    /// meet the contracts of `put` and `deleted`.
    open spec fn shown(&self) -> Seq<BatchRecord> {
        Seq::empty()
    }

    /// Shown a put of `value` under `key`.
    fn put(&mut self, key: Self::K, value: &[u8])
        ensures
            final(self).shown() == old(self).shown().push(BatchRecord::Put(key.key_bytes(), value@)),
    ;

    /// Shown a delete of `key`.
    fn deleted(&mut self, key: Self::K)
        ensures
            final(self).shown() == old(self).shown().push(BatchRecord::Delete(key.key_bytes())),
    ;
}

/// A batch of puts and deletes over keys of type `K`, not yet committed.
pub struct Writebatch<K: Key> {
    writebatch: leveldb_writebatch_t,
    marker: PhantomData<K>,
}

impl<K: Key> View for Writebatch<K> {
    type V = Seq<BatchRecord>;

    closed spec fn view(&self) -> Seq<BatchRecord> {
        ops_view(self.writebatch.ops@)
    }
}

impl<K: Key> Writebatch<K> {
    #[verifier::type_invariant]
    spec fn inv(&self) -> bool {
        forall|i: int|
            0 <= i < self.writebatch.ops@.len() ==> K::is_key_bytes(
                #[trigger] record_key(self.writebatch.ops@[i]@),
            )
    }

    /// An empty batch.
    pub fn new() -> (r: Writebatch<K>)
        ensures
            r@ == Seq::<BatchRecord>::empty(),
    {
        let r = Writebatch { writebatch: leveldb_writebatch_t { ops: Vec::new() }, marker: PhantomData };
        assert(r@ =~= Seq::<BatchRecord>::empty());
        r
    }

    /// Removes every operation from the batch.
    pub fn clear(&mut self)
        ensures
            final(self)@ == Seq::<BatchRecord>::empty(),
    {
        self.writebatch = leveldb_writebatch_t { ops: Vec::new() };
        assert(self@ =~= Seq::<BatchRecord>::empty());
    }

    /// Appends a put of `value` under `key`.
    pub fn put(&mut self, key: K, value: &[u8])
        ensures
            final(self)@ == old(self)@.push(BatchRecord::Put(key.key_bytes(), value@)),
    {
        proof {
            use_type_invariant(&*self);
            K::lemma_round_trip(key);
        }
        let op = BatchOp::Put { key: key_to_vec(&key), value: slice_to_vec(value) };
        self.push_op(op);
    }

    /// Appends a delete of `key`.
    pub fn delete(&mut self, key: K)
        ensures
            final(self)@ == old(self)@.push(BatchRecord::Delete(key.key_bytes())),
    {
        proof {
            use_type_invariant(&*self);
            K::lemma_round_trip(key);
        }
        let op = BatchOp::Delete { key: key_to_vec(&key) };
        self.push_op(op);
    }

    fn push_op(&mut self, op: BatchOp)
        requires
            K::is_key_bytes(record_key(op@)),
        ensures
            final(self)@ == old(self)@.push(op@),
    {
        proof {
            use_type_invariant(&*self);
        }
        let ghost before = self.writebatch.ops@;
        let mut wb = leveldb_writebatch_t { ops: Vec::new() };
        core::mem::swap(&mut self.writebatch, &mut wb);
        wb.ops.push(op);
        proof {
            assert(wb.ops@ == before.push(op));
            assert(ops_view(wb.ops@) =~= ops_view(before).push(op@));
            assert forall|i: int| 0 <= i < wb.ops@.len() implies K::is_key_bytes(
                #[trigger] record_key(wb.ops@[i]@),
            ) by {
                if i < before.len() {
                    assert(wb.ops@[i] == before[i]);
                }
            }
        }
        core::mem::swap(&mut self.writebatch, &mut wb);
    }

    /// The operations of the batch, in order, for handing to the engine.
    pub fn ops(&self) -> (r: &Vec<BatchOp>)
        ensures
            ops_view(r@) == self@,
    {
        &self.writebatch.ops
    }

    /// Replays the batch to `iterator`: each operation in the order it was
    /// made, a put as `put`, a delete as `deleted`. Returns the visitor.
    pub fn iterate<T: WritebatchIterator<K = K>>(&self, iterator: Box<T>) -> (r: Box<T>)
        ensures
            r.shown() == iterator.shown() + self@,
    {
        proof {
            use_type_invariant(self);
        }
        let mut it = iterator;
        let ops = &self.writebatch.ops;
        let mut i: usize = 0;
        while i < ops.len()
            invariant
                i <= ops@.len(),
                ops@ == self.writebatch.ops@,
                forall|j: int| 0 <= j < ops@.len() ==> K::is_key_bytes(#[trigger] record_key(ops@[j]@)),
                it.shown() == iterator.shown() + ops_view(ops@).subrange(0, i as int),
            decreases ops@.len() - i,
        {
            let ghost before = it.shown();
            assert(K::is_key_bytes(record_key(ops@[i as int]@)));
            match &ops[i] {
                BatchOp::Put { key, value } => {
                    let k = K::from_u8(key.as_slice());
                    proof {
                        K::lemma_decode_bytes(key@);
                    }
                    it.put(k, value.as_slice());
                },
                BatchOp::Delete { key } => {
                    let k = K::from_u8(key.as_slice());
                    proof {
                        K::lemma_decode_bytes(key@);
                    }
                    it.deleted(k);
                },
            }
            proof {
                assert(ops_view(ops@).subrange(0, i + 1) =~= ops_view(ops@).subrange(
                    0,
                    i as int,
                ).push(ops@[i as int]@));
                assert(it.shown() =~= iterator.shown() + ops_view(ops@).subrange(0, i + 1));
            }
            i = i + 1;
        }
        proof {
            assert(ops_view(ops@).subrange(0, i as int) =~= ops_view(ops@));
        }
        it
    }
}

impl<K: Key> WritebatchIterator for Writebatch<K> {
    type K = K;

    open spec fn shown(&self) -> Seq<BatchRecord> {
        self@
    }

    fn put(&mut self, key: K, value: &[u8]) {
        Writebatch::put(self, key, value)
    }

    fn deleted(&mut self, key: K) {
        Writebatch::delete(self, key)
    }
}

} // verus!
