use ocall::buffer::{c_region, CRegion, copy_into, padded, read_prefix, zeroed};
use ocall::latin1::bytes_to_string;

#[test]
fn bytes_read_one_char_per_byte() {
    assert_eq!(bytes_to_string(b"1233890"), "1233890");
    assert_eq!(bytes_to_string(&[0x41, 0xe9, 0x00, 0xff]), "A\u{e9}\u{0}\u{ff}");
    assert_eq!(bytes_to_string(&[0xe9]).chars().count(), 1);
}

#[test]
fn empty_bytes_read_as_empty_text() {
    assert_eq!(bytes_to_string(&[]), "");
}

#[test]
fn decoding_joined_buffers_joins_texts() {
    let a = b"ddd".to_vec();
    let b = vec![0xe9u8, 0x21];
    let mut ab = a.clone();
    ab.extend_from_slice(&b);
    assert_eq!(bytes_to_string(&ab), bytes_to_string(&a) + &bytes_to_string(&b));
}

#[test]
fn different_bytes_read_as_different_texts() {
    assert_ne!(bytes_to_string(&[0xe9]), bytes_to_string(&[0xc3, 0xa9]));
}

#[test]
fn copy_overwrites_only_the_prefix() {
    let mut dst = b"ddddd".to_vec();
    copy_into(&mut dst, b"xy");
    assert_eq!(dst, b"xyddd".to_vec());
    let mut whole = vec![1u8, 2, 3];
    copy_into(&mut whole, &[7, 8, 9]);
    assert_eq!(whole, vec![7, 8, 9]);
    let mut same = vec![4u8, 5];
    copy_into(&mut same, &[]);
    assert_eq!(same, vec![4, 5]);
}

#[test]
fn read_back_gives_what_was_written() {
    let mut buf = vec![0xaau8; 16];
    let src = b"worileqing";
    copy_into(&mut buf, src);
    assert_eq!(read_prefix(&buf, src.len()), src.to_vec());
    assert_eq!(&buf[10..], &[0xaa; 6]);
    assert_eq!(buf.len(), 16);
}

#[test]
fn read_prefix_takes_the_first_bytes() {
    assert_eq!(read_prefix(b"1233890", 3), b"123".to_vec());
    assert_eq!(read_prefix(b"1233890", 0), Vec::<u8>::new());
    assert_eq!(read_prefix(b"1233890", 7), b"1233890".to_vec());
}

#[test]
fn zeroed_and_padded_buffers() {
    assert_eq!(zeroed(4), vec![0u8; 4]);
    assert_eq!(zeroed(0), Vec::<u8>::new());
    assert_eq!(padded(b"ddddd", 8), b"ddddd\0\0\0".to_vec());
    assert_eq!(padded(b"ab", 2), b"ab".to_vec());
}

#[test]
fn empty_slice_is_handed_over_as_the_placeholder() {
    let empty: [u8; 0] = [];
    assert!(matches!(c_region(&empty), CRegion::Placeholder));
    let no_words: [&str; 0] = [];
    assert!(matches!(c_region(&no_words), CRegion::Placeholder));
}

#[test]
fn non_empty_slice_is_handed_over_itself() {
    let data = [5u8, 6, 7];
    match c_region(&data) {
        CRegion::Data(r) => assert!(std::ptr::eq(r, &data[..])),
        CRegion::Placeholder => panic!("a non-empty slice is handed over itself"),
    }
    let words = ["a", "b"];
    assert!(matches!(c_region(&words), CRegion::Data(r) if r.len() == 2));
}
