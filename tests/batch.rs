use leveldb::batch::{BatchOp, Writebatch, WritebatchIterator};

struct Iter {
    put: i32,
    deleted: i32,
    seen: Vec<(bool, i32)>,
}

impl WritebatchIterator for Iter {
    type K = i32;

    fn put(&mut self, key: i32, _value: &[u8]) {
        self.put = self.put + 1;
        self.seen.push((true, key));
    }

    fn deleted(&mut self, key: i32) {
        self.deleted = self.deleted + 1;
        self.seen.push((false, key));
    }
}

fn sample() -> Writebatch<i32> {
    let mut batch = Writebatch::new();
    batch.put(1, &[1]);
    batch.put(2, &[2]);
    batch.delete(1);
    batch
}

#[test]
fn batch_iterate_visits_puts_and_deletes_in_order() {
    let batch = sample();
    let iter = Box::new(Iter { put: 0, deleted: 0, seen: Vec::new() });
    let iter2 = batch.iterate(iter);
    assert_eq!(iter2.put, 2);
    assert_eq!(iter2.deleted, 1);
    assert_eq!(iter2.seen, vec![(true, 1), (true, 2), (false, 1)]);
}

#[test]
fn batch_records_key_bytes_and_values() {
    let batch = sample();
    let ops = batch.ops();
    assert_eq!(ops.len(), 3);
    assert!(matches!(&ops[0], BatchOp::Put { key, value } if key == &vec![0, 0, 0, 1] && value == &vec![1]));
    assert!(matches!(&ops[1], BatchOp::Put { key, value } if key == &vec![0, 0, 0, 2] && value == &vec![2]));
    assert!(matches!(&ops[2], BatchOp::Delete { key } if key == &vec![0, 0, 0, 1]));
}

#[test]
fn batch_clear_empties_it() {
    let mut batch = sample();
    batch.clear();
    assert!(batch.ops().is_empty());
    let iter = batch.iterate(Box::new(Iter { put: 0, deleted: 0, seen: Vec::new() }));
    assert_eq!(iter.put, 0);
    assert_eq!(iter.deleted, 0);
    batch.put(3, &[3, 3]);
    assert_eq!(batch.ops().len(), 1);
}

#[test]
fn batch_replays_into_another_batch() {
    let batch = sample();
    let mut other: Writebatch<i32> = Writebatch::new();
    other.delete(9);
    let other = batch.iterate(Box::new(other));
    let ops = other.ops();
    assert_eq!(ops.len(), 4);
    assert!(matches!(&ops[0], BatchOp::Delete { key } if key == &vec![0, 0, 0, 9]));
    assert!(matches!(&ops[3], BatchOp::Delete { key } if key == &vec![0, 0, 0, 1]));
}
