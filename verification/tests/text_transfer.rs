use gphoto::error::{Error, ErrorKind};
use gphoto::text::{camera_text_to_string, terminated_text, text_len, text_to_string_lossy};

fn buffer(text: &[u8], capacity: usize) -> Vec<u8> {
    let mut v = vec![0u8; capacity];
    v[..text.len()].copy_from_slice(text);
    v
}

#[test]
fn text_len_stops_at_first_terminator() {
    assert_eq!(text_len(b"abc\0def\0"), 3);
}

#[test]
fn text_len_of_empty_buffer_is_zero() {
    assert_eq!(text_len(b""), 0);
}

#[test]
fn text_len_of_leading_terminator_is_zero() {
    assert_eq!(text_len(b"\0abc"), 0);
}

#[test]
fn text_len_without_terminator_is_capacity() {
    assert_eq!(text_len(b"abcdef"), 6);
}

#[test]
fn text_transfer_yields_text_before_terminator() {
    let s = camera_text_to_string(buffer(b"Canon EOS", 32 * 1024)).unwrap();
    assert_eq!(s, "Canon EOS");
    assert_eq!(s.len(), 9);
}

#[test]
fn text_transfer_length_equals_used_length() {
    let text = "Gr\u{f6}\u{df}e: 12 \u{20ac}".as_bytes();
    let buf = buffer(text, 64);
    let used = text_len(&buf);
    let s = camera_text_to_string(buf).unwrap();
    assert_eq!(used, 15);
    assert_eq!(s.len(), used);
    assert_eq!(s, "Gr\u{f6}\u{df}e: 12 \u{20ac}");
}

#[test]
fn text_transfer_ignores_bytes_after_terminator() {
    let clean = camera_text_to_string(vec![b'A', b'B', 0, 0, 0, 0]).unwrap();
    let dirty = camera_text_to_string(vec![b'A', b'B', 0, 0xff, 0xfe, b'Z']).unwrap();
    assert_eq!(clean, "AB");
    assert_eq!(dirty, "AB");
}

#[test]
fn text_transfer_of_invalid_utf8_is_corrupted_data() {
    let r = camera_text_to_string(vec![b'a', 0xff, b'b', 0]);
    assert_eq!(r, Err(Error { kind: ErrorKind::CorruptedData, code: -102 }));
}

#[test]
fn text_transfer_of_truncated_sequence_is_corrupted_data() {
    let r = camera_text_to_string(vec![b'a', 0xc3, 0, 0xa9]);
    assert_eq!(r.unwrap_err().kind(), ErrorKind::CorruptedData);
}

#[test]
fn text_transfer_of_overlong_encoding_is_corrupted_data() {
    let r = camera_text_to_string(vec![0xc0, 0x80 | 0x2f, 0]);
    assert_eq!(r.unwrap_err().kind(), ErrorKind::CorruptedData);
}

#[test]
fn text_transfer_of_surrogate_is_corrupted_data() {
    let r = camera_text_to_string(vec![0xed, 0xa0, 0x80, 0]);
    assert_eq!(r.unwrap_err().kind(), ErrorKind::CorruptedData);
}

#[test]
fn text_transfer_of_empty_text_is_empty_string() {
    assert_eq!(camera_text_to_string(vec![0u8; 32 * 1024]).unwrap(), "");
    assert_eq!(camera_text_to_string(Vec::new()).unwrap(), "");
}

#[test]
fn text_transfer_without_terminator_takes_whole_buffer() {
    assert_eq!(camera_text_to_string(b"full".to_vec()).unwrap(), "full");
}

#[test]
fn text_transfer_of_full_capacity_text() {
    let mut buf = vec![b'x'; 32 * 1024];
    buf[32 * 1024 - 1] = 0;
    let s = camera_text_to_string(buf).unwrap();
    assert_eq!(s.len(), 32 * 1024 - 1);
    assert!(s.bytes().all(|b| b == b'x'));
}

#[test]
fn lossy_text_replaces_invalid_bytes() {
    assert_eq!(text_to_string_lossy(b"a\xffb\0zzz"), "a\u{fffd}b");
}

#[test]
fn lossy_text_keeps_valid_text() {
    assert_eq!(text_to_string_lossy("/store_00010001/DCIM\0".as_bytes()), "/store_00010001/DCIM");
    assert_eq!(text_to_string_lossy("caf\u{e9}\0\u{e9}".as_bytes()), "caf\u{e9}");
}

#[test]
fn lossy_text_ignores_bytes_after_terminator() {
    assert_eq!(text_to_string_lossy(b"ok\0\xff\xff"), "ok");
}

#[test]
fn terminated_text_appends_one_terminator() {
    assert_eq!(terminated_text(b"abc"), b"abc\0".to_vec());
    assert_eq!(terminated_text(b"ab\0cd\0"), b"ab\0".to_vec());
    assert_eq!(terminated_text(b""), b"\0".to_vec());
    assert_eq!(terminated_text(b"\0x"), b"\0".to_vec());
}
