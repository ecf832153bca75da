//! The same protocol exercised directly on one document handle, plus the
//! multi-byte character cases of the byte-offset index.

use ydoc::handle::DocHandle;
use ydoc::Error;

#[test]
fn single_handle_protocol() {
    let mut d = DocHandle::new();
    d.insert_char(0, b'h').expect("insert");
    d.insert_char(1, b'i').expect("insert");
    let n = d.stringify();
    assert_eq!(n, 3);
    let mut buf = vec![0u8; n];
    d.read_text_result(&mut buf).expect("read");
    assert_eq!(buf, b"hi\0".to_vec());
}

#[test]
fn single_handle_round_trip() {
    let mut a = DocHandle::new();
    let mut b = DocHandle::new();
    a.insert_char(0, b'y').expect("insert");
    let n = a.encode_state_as_update();
    let mut update = vec![0u8; n];
    a.read_binary_result(&mut update).expect("read");
    b.apply_update(&update).expect("apply");
    let m = b.stringify();
    let mut text = vec![0u8; m];
    b.read_text_result(&mut text).expect("read");
    assert_eq!(text, b"y\0".to_vec());
}

#[test]
fn non_ascii_byte_takes_two_bytes() {
    let mut d = DocHandle::new();
    // 0xE9 is "é": two bytes in UTF-8
    d.insert_char(0, 0xE9).expect("insert");
    let n = d.stringify();
    assert_eq!(n, 3);
    let mut buf = vec![0u8; n];
    d.read_text_result(&mut buf).expect("read");
    assert_eq!(buf, vec![0xC3, 0xA9, 0]);
}

#[test]
fn mid_character_offset_is_rejected() {
    let mut d = DocHandle::new();
    d.insert_char(0, 0xE9).expect("insert");
    // byte offset 1 splits the two-byte character
    assert_eq!(d.insert_char(1, b'a'), Err(Error::IndexOutOfBounds));
    // offsets 0 and 2 are character boundaries
    d.insert_char(2, b'b').expect("append");
    d.insert_char(0, b'a').expect("prepend");
    let n = d.stringify();
    let mut buf = vec![0u8; n];
    d.read_text_result(&mut buf).expect("read");
    assert_eq!(buf, vec![b'a', 0xC3, 0xA9, b'b', 0]);
}

#[test]
fn prepend_orders_by_final_index() {
    let mut d = DocHandle::new();
    d.insert_char(0, b'b').expect("insert");
    d.insert_char(0, b'a').expect("prepend");
    let n = d.stringify();
    let mut buf = vec![0u8; n];
    d.read_text_result(&mut buf).expect("read");
    assert_eq!(buf, b"ab\0".to_vec());
}

#[test]
fn read_copies_only_the_front_of_the_buffer() {
    let mut d = DocHandle::new();
    d.insert_char(0, b'w').expect("insert");
    let n = d.encode_state_as_update();
    let mut buf = vec![0xEEu8; n + 5];
    d.read_binary_result(&mut buf).expect("read");
    assert_eq!(&buf[n..], [0xEEu8; 5]);
    let mut fresh = DocHandle::new();
    fresh.apply_update(&buf[..n].to_vec()).expect("apply");
    let m = fresh.stringify();
    let mut text = vec![0u8; m];
    fresh.read_text_result(&mut text).expect("read");
    assert_eq!(text, b"w\0".to_vec());
}
