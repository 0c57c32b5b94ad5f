use leveldb::key::{decode_key, from_u8, key_to_vec, Key};

#[test]
fn i32_keys_are_big_endian() {
    assert_eq!(key_to_vec(&1i32), vec![0, 0, 0, 1]);
    assert_eq!(key_to_vec(&256i32), vec![0, 0, 1, 0]);
    assert_eq!(key_to_vec(&-1i32), vec![255, 255, 255, 255]);
    assert_eq!(key_to_vec(&i32::MIN), vec![128, 0, 0, 0]);
}

#[test]
fn i32_keys_round_trip() {
    for k in [0i32, 1, -1, 2, 255, 256, 65536, i32::MAX, i32::MIN, -123456789] {
        let bytes = key_to_vec(&k);
        let back: i32 = from_u8(&bytes);
        assert_eq!(back, k);
    }
}

#[test]
fn i32_from_u8_reads_four_bytes() {
    let k: i32 = from_u8(&[0, 0, 1, 0]);
    assert_eq!(k, 256);
    let k: i32 = <i32 as Key>::from_u8(&[0x7f, 0xff, 0xff, 0xff]);
    assert_eq!(k, i32::MAX);
}

#[test]
fn as_slice_hands_over_the_byte_form() {
    let n = 513i32.as_slice(|b| b.len());
    assert_eq!(n, 4);
    let first = 513i32.as_slice(|b| b.to_vec());
    assert_eq!(first, vec![0, 0, 2, 1]);
}

#[test]
fn only_four_bytes_are_an_i32_key() {
    assert!(<i32 as Key>::accepts(&[1, 2, 3, 4]));
    assert!(!<i32 as Key>::accepts(&[1, 2, 3]));
    assert!(!<i32 as Key>::accepts(&[]));
    assert_eq!(decode_key::<i32>(&[0, 0, 0, 7]), Some(7));
    assert_eq!(decode_key::<i32>(&[0, 0, 7]), None);
    assert_eq!(decode_key::<i32>(&[0, 0, 0, 0, 7]), None);
}
