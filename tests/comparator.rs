use leveldb::comparator::{compare_bytes, compare_lex, compare_native, ordering_to_c, Comparator, OrdComparator};
use leveldb::key::key_to_vec;
use std::cmp::Ordering;

struct ReverseComparator;

impl Comparator for ReverseComparator {
    type K = i32;

    fn name(&self) -> &str {
        "reverse"
    }

    fn compare(&self, a: &i32, b: &i32) -> Ordering {
        b.cmp(a)
    }
}

#[test]
fn ord_comparator_keeps_its_name() {
    let c: OrdComparator<i32> = OrdComparator::new("foo");
    assert_eq!(c.name(), "foo");
}

#[test]
fn ord_comparator_orders_keys_naturally() {
    let c: OrdComparator<i32> = OrdComparator::new("ord_comparator");
    let one = key_to_vec(&1i32);
    let two = key_to_vec(&2i32);
    assert_eq!(compare_native(&c, &one, &two), -1);
    assert_eq!(compare_native(&c, &two, &one), 1);
    assert_eq!(compare_native(&c, &two, &two), 0);
    let minus = key_to_vec(&-5i32);
    assert_eq!(compare_native(&c, &minus, &one), -1);
}

#[test]
fn reverse_comparator_orders_keys_backwards() {
    let c = ReverseComparator;
    let one = key_to_vec(&1i32);
    let two = key_to_vec(&2i32);
    assert_eq!(compare_native(&c, &two, &one), -1);
    assert_eq!(compare_native(&c, &one, &two), 1);
    assert_eq!(compare_bytes(&c, &one, &one), Ordering::Equal);
}

#[test]
fn malformed_bytes_sort_after_keys() {
    let c: OrdComparator<i32> = OrdComparator::new("ord");
    let key = key_to_vec(&i32::MAX);
    assert_eq!(compare_native(&c, &[1, 2], &key), 1);
    assert_eq!(compare_native(&c, &key, &[1, 2]), -1);
    assert_eq!(compare_native(&c, &[], &key), 1);
}

#[test]
fn malformed_bytes_sort_by_bytes() {
    let c: OrdComparator<i32> = OrdComparator::new("ord");
    assert_eq!(compare_native(&c, &[1], &[1, 0]), -1);
    assert_eq!(compare_native(&c, &[2], &[1, 9]), 1);
    assert_eq!(compare_native(&c, &[1, 2, 3], &[1, 2, 3]), 0);
}

#[test]
fn lexicographic_order() {
    assert_eq!(compare_lex(&[], &[]), Ordering::Equal);
    assert_eq!(compare_lex(&[], &[0]), Ordering::Less);
    assert_eq!(compare_lex(&[0], &[]), Ordering::Greater);
    assert_eq!(compare_lex(&[1, 2, 3], &[1, 2, 4]), Ordering::Less);
    assert_eq!(compare_lex(&[1, 3], &[1, 2, 4]), Ordering::Greater);
    assert_eq!(compare_lex(&[255, 0], &[255, 0]), Ordering::Equal);
}

#[test]
fn orderings_map_to_signs() {
    assert_eq!(ordering_to_c(Ordering::Less), -1);
    assert_eq!(ordering_to_c(Ordering::Equal), 0);
    assert_eq!(ordering_to_c(Ordering::Greater), 1);
}

#[test]
fn bridge_order_is_antisymmetric_on_samples() {
    let c: OrdComparator<i32> = OrdComparator::new("ord");
    let samples: Vec<Vec<u8>> = vec![
        key_to_vec(&-3i32),
        key_to_vec(&0i32),
        key_to_vec(&9i32),
        vec![],
        vec![1],
        vec![1, 0],
        vec![0, 0, 0, 0, 0],
    ];
    for a in &samples {
        for b in &samples {
            assert_eq!(compare_native(&c, a, b), -compare_native(&c, b, a));
            assert_eq!(compare_native(&c, a, b) == 0, a == b);
        }
    }
}
