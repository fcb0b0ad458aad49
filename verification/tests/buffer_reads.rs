use rs3cache::buffer::{cp1252, Buffer, DecodeError};

#[test]
fn reads_unsigned_byte_and_advances() {
    let mut b = Buffer::new(vec![0xfe, 0x01]);
    assert_eq!(b.read_unsigned_byte(), Ok(0xfe));
    assert_eq!(b.remaining(), 1);
    assert_eq!(b.read_unsigned_byte(), Ok(0x01));
    assert_eq!(b.read_unsigned_byte(), Err(DecodeError::UnexpectedEnd));
}

#[test]
fn reads_signed_byte() {
    let mut b = Buffer::new(vec![0xff, 0x80, 0x7f]);
    assert_eq!(b.read_byte(), Ok(-1));
    assert_eq!(b.read_byte(), Ok(-128));
    assert_eq!(b.read_byte(), Ok(127));
}

#[test]
fn reads_big_endian_short() {
    let mut b = Buffer::new(vec![0x12, 0x34, 0xff]);
    assert_eq!(b.read_unsigned_short(), Ok(0x1234));
    assert_eq!(b.read_unsigned_short(), Err(DecodeError::UnexpectedEnd));
}

#[test]
fn reads_three_bytes() {
    let mut b = Buffer::new(vec![0x01, 0x02, 0x03]);
    assert_eq!(b.read_3_unsigned_bytes(), Ok(0x010203));
    assert_eq!(b.remaining(), 0);
}

#[test]
fn reads_signed_int() {
    let mut b = Buffer::new(vec![0xff, 0xff, 0xff, 0xfe, 0x00, 0x00, 0x01, 0x00]);
    assert_eq!(b.read_int(), Ok(-2));
    assert_eq!(b.read_int(), Ok(256));
    let mut short = Buffer::new(vec![1, 2, 3]);
    assert_eq!(short.read_int(), Err(DecodeError::UnexpectedEnd));
}

#[test]
fn reads_smart32_forms() {
    let mut b = Buffer::new(vec![0x01, 0x00, 0x7f, 0xff, 0x80, 0x00, 0x12, 0x34]);
    assert_eq!(b.read_smart32(), Ok(Some(256)));
    assert_eq!(b.read_smart32(), Ok(None));
    assert_eq!(b.read_smart32(), Ok(Some(0x1234)));
    assert_eq!(b.remaining(), 0);
    let mut short = Buffer::new(vec![0x80, 0x00, 0x00]);
    assert_eq!(short.read_smart32(), Err(DecodeError::UnexpectedEnd));
}

#[test]
fn reads_masked_index() {
    let mut b = Buffer::new(vec![0x00, 0x05]);
    assert_eq!(b.read_masked_index(), Ok(5));
}

#[test]
fn reads_terminated_string() {
    let mut b = Buffer::new(vec![b'H', b'i', 0x80, 0, 7]);
    assert_eq!(b.read_string(), Ok("Hi\u{20AC}".to_string()));
    assert_eq!(b.remaining(), 1);
}

#[test]
fn reads_empty_string() {
    let mut b = Buffer::new(vec![0]);
    assert_eq!(b.read_string(), Ok(String::new()));
    assert_eq!(b.remaining(), 0);
}

#[test]
fn string_without_terminator_is_rejected() {
    let mut b = Buffer::new(vec![b'a', b'b']);
    assert_eq!(b.read_string(), Err(DecodeError::UnexpectedEnd));
}

#[test]
fn windows_1252_characters() {
    assert_eq!(cp1252(b'a'), 'a');
    assert_eq!(cp1252(0x99), '\u{2122}');
    assert_eq!(cp1252(0x81), '\u{81}');
    assert_eq!(cp1252(0xe9), '\u{e9}');
}
