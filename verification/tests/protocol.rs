//! The staged export protocol through the handle table: produce, allocate,
//! read out, and every error the entry points can report.

use ydoc::table::DocTable;
use ydoc::Error;

fn read_text(t: &mut DocTable, id: usize) -> Vec<u8> {
    let n = t.stringify(id).expect("stringify");
    let mut buf = vec![0xAAu8; n];
    t.read_text_result(id, &mut buf).expect("read text");
    buf
}

fn read_binary(t: &mut DocTable, id: usize) -> Vec<u8> {
    let n = t.encode_state_as_update(id).expect("encode");
    let mut buf = vec![0u8; n];
    t.read_binary_result(id, &mut buf).expect("read binary");
    buf
}

#[test]
fn inserts_in_index_order() {
    let mut t = DocTable::new();
    let h = t.create_document();
    for (i, c) in b"hello".iter().enumerate() {
        t.insert_char(h, i as u32, *c).expect("insert");
    }
    assert_eq!(read_text(&mut t, h), b"hello\0".to_vec());
}

#[test]
fn scenario_abc_then_empty_read() {
    let mut t = DocTable::new();
    let h = t.create_document();
    t.insert_char(h, 0, b'a').expect("insert a");
    t.insert_char(h, 1, b'b').expect("insert b");
    t.insert_char(h, 2, b'c').expect("insert c");
    let n = t.stringify(h).expect("stringify");
    assert_eq!(n, 4);
    let mut buf = vec![0xFFu8; 4];
    t.read_text_result(h, &mut buf).expect("read");
    assert_eq!(buf, b"abc\0".to_vec());
    // nothing is pending any more
    let mut buf2 = vec![0xFFu8; 4];
    assert_eq!(
        t.read_text_result(h, &mut buf2),
        Err(Error::NoPendingResult)
    );
    assert_eq!(buf2, vec![0xFFu8; 4]);
}

#[test]
fn round_trip_between_two_handles() {
    let mut t = DocTable::new();
    let h1 = t.create_document();
    let h2 = t.create_document();
    t.insert_char(h1, 0, b'x').expect("insert");
    let update = read_binary(&mut t, h1);
    t.apply_update(h2, &update).expect("apply");
    assert_eq!(read_text(&mut t, h1), b"x\0".to_vec());
    assert_eq!(read_text(&mut t, h2), b"x\0".to_vec());
}

#[test]
fn encode_is_idempotent() {
    let mut t = DocTable::new();
    let h = t.create_document();
    t.insert_char(h, 0, b'q').expect("insert");
    t.insert_char(h, 1, b'r').expect("insert");
    let first = read_binary(&mut t, h);
    let second = read_binary(&mut t, h);
    assert_eq!(first, second);
}

#[test]
fn second_stringify_wins() {
    let mut t = DocTable::new();
    let h = t.create_document();
    t.insert_char(h, 0, b'a').expect("insert");
    let n1 = t.stringify(h).expect("first stringify");
    assert_eq!(n1, 2);
    t.insert_char(h, 1, b'b').expect("insert");
    let n2 = t.stringify(h).expect("second stringify");
    assert_eq!(n2, 3);
    let mut buf = vec![0x55u8; 8];
    t.read_text_result(h, &mut buf).expect("read");
    // only the second call's content, not a concatenation
    assert_eq!(&buf[..3], b"ab\0");
    assert_eq!(&buf[3..], [0x55u8; 5]);
    let mut buf2 = vec![0u8; 8];
    assert_eq!(
        t.read_text_result(h, &mut buf2),
        Err(Error::NoPendingResult)
    );
}

#[test]
fn insert_boundaries() {
    let mut t = DocTable::new();
    let h = t.create_document();
    t.insert_char(h, 0, b'a').expect("insert at 0");
    // appending at index == current length succeeds
    t.insert_char(h, 1, b'b').expect("append");
    // one past the end is rejected
    assert_eq!(t.insert_char(h, 3, b'c'), Err(Error::IndexOutOfBounds));
    assert_eq!(read_text(&mut t, h), b"ab\0".to_vec());
}

#[test]
fn empty_document_stringifies_to_terminator() {
    let mut t = DocTable::new();
    let h = t.create_document();
    let n = t.stringify(h).expect("stringify");
    assert_eq!(n, 1);
    let mut buf = vec![9u8; 1];
    t.read_text_result(h, &mut buf).expect("read");
    assert_eq!(buf, vec![0u8]);
}

#[test]
fn text_and_binary_slots_are_independent() {
    let mut t = DocTable::new();
    let h = t.create_document();
    t.insert_char(h, 0, b'z').expect("insert");
    let tn = t.stringify(h).expect("stringify");
    let bn = t.encode_state_as_update(h).expect("encode");
    let mut tbuf = vec![0u8; tn];
    let mut bbuf = vec![0u8; bn];
    t.read_binary_result(h, &mut bbuf).expect("read binary");
    t.read_text_result(h, &mut tbuf).expect("read text");
    assert_eq!(tbuf, b"z\0".to_vec());
    // the binary result applies cleanly elsewhere
    let h2 = t.create_document();
    t.apply_update(h2, &bbuf).expect("apply");
    assert_eq!(read_text(&mut t, h2), b"z\0".to_vec());
}

#[test]
fn buffer_too_small_keeps_result_pending() {
    let mut t = DocTable::new();
    let h = t.create_document();
    t.insert_char(h, 0, b'a').expect("insert");
    let n = t.stringify(h).expect("stringify");
    assert_eq!(n, 2);
    let mut small = vec![7u8; 1];
    assert_eq!(
        t.read_text_result(h, &mut small),
        Err(Error::BufferTooSmall)
    );
    assert_eq!(small, vec![7u8; 1]);
    // the pending result survived the failed read
    let mut buf = vec![0u8; 2];
    t.read_text_result(h, &mut buf).expect("read");
    assert_eq!(buf, b"a\0".to_vec());
}

#[test]
fn read_without_produce_reports_nothing_pending() {
    let mut t = DocTable::new();
    let h = t.create_document();
    let mut buf = vec![1u8; 4];
    assert_eq!(t.read_text_result(h, &mut buf), Err(Error::NoPendingResult));
    assert_eq!(
        t.read_binary_result(h, &mut buf),
        Err(Error::NoPendingResult)
    );
    assert_eq!(buf, vec![1u8; 4]);
}

#[test]
fn malformed_update_is_rejected() {
    let mut t = DocTable::new();
    let h = t.create_document();
    let garbage = vec![0xFFu8, 0xFF, 0xFF, 0xFF, 0xFF, 0xFF];
    assert_eq!(t.apply_update(h, &garbage), Err(Error::MalformedUpdate));
    // the document still works afterwards
    t.insert_char(h, 0, b'k').expect("insert");
    assert_eq!(read_text(&mut t, h), b"k\0".to_vec());
}

#[test]
fn dead_handles_are_refused() {
    let mut t = DocTable::new();
    let h = t.create_document();
    t.destroy_document(h).expect("destroy");
    assert_eq!(t.destroy_document(h), Err(Error::InvalidHandle));
    assert_eq!(t.insert_char(h, 0, b'a'), Err(Error::InvalidHandle));
    assert_eq!(t.stringify(h), Err(Error::InvalidHandle));
    assert_eq!(t.encode_state_as_update(h), Err(Error::InvalidHandle));
    let mut buf = vec![0u8; 4];
    assert_eq!(t.read_text_result(h, &mut buf), Err(Error::InvalidHandle));
    assert_eq!(t.read_binary_result(h, &mut buf), Err(Error::InvalidHandle));
    assert_eq!(t.apply_update(h, &buf), Err(Error::InvalidHandle));
    // a handle that was never issued
    assert_eq!(t.stringify(41), Err(Error::InvalidHandle));
}

#[test]
fn identifiers_are_never_reused() {
    let mut t = DocTable::new();
    let h0 = t.create_document();
    let h1 = t.create_document();
    assert_eq!((h0, h1), (0, 1));
    t.destroy_document(h0).expect("destroy");
    let h2 = t.create_document();
    assert_eq!(h2, 2);
    // the destroyed identifier stays dead
    assert_eq!(t.stringify(h0), Err(Error::InvalidHandle));
    t.insert_char(h2, 0, b'n').expect("insert");
    assert_eq!(read_text(&mut t, h2), b"n\0".to_vec());
}
