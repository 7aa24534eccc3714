use hlwall::{ByteReader, ReadError};

#[test]
fn test_read_empty_string() {
    let mut reader = ByteReader::new(b"");

    match reader.read_stringz() {
        Ok(some) => panic!("found stringz where it should not be: {}", some),
        Err(e) => {
            if e != ReadError::NoNullByte && e.to_string() != "No null byte found in reader" {
                panic!("Wrong error received: {}", e.to_string())
            }
        }
    };
}

#[test]
fn test_read_string_without_zero() {
    let mut reader = ByteReader::new(b"Some data");

    match reader.read_stringz() {
        Ok(some) => panic!("found stringz where it should not be: {}", some),
        Err(e) => {
            if e != ReadError::NoNullByte && e.to_string() != "No null byte found in reader" {
                panic!("Wrong error received: {}", e.to_string())
            }
        }
    };
}

#[test]
fn test_read_stringz() {
    let mut reader = ByteReader::new(b"Some data \x00skipped");

    match reader.read_stringz() {
        Ok(some) => assert_eq!(some, "Some data "),
        Err(e) => panic!("Received error when should have not: {}", e.to_string()),
    };
}

#[test]
fn stringz_error_message_and_position() {
    let mut reader = ByteReader::new(b"abc");
    assert_eq!(reader.read_stringz(), Err(ReadError::NoNullByte));
    assert_eq!(ReadError::NoNullByte.to_string(), "No null byte found in reader");
    assert_eq!(reader.position(), 3);
}

#[test]
fn stringz_consumes_the_terminator() {
    let mut reader = ByteReader::new(b"ab\x00\x00cd\x00");
    assert_eq!(reader.read_stringz().unwrap(), "ab");
    assert_eq!(reader.position(), 3);
    assert_eq!(reader.read_stringz().unwrap(), "");
    assert_eq!(reader.read_stringz().unwrap(), "cd");
    assert_eq!(reader.position(), 7);
}

#[test]
fn stringz_replaces_invalid_utf8() {
    let mut reader = ByteReader::new(b"a\xffb\x00");
    assert_eq!(reader.read_stringz().unwrap(), "a\u{FFFD}b");
}

#[test]
fn fixed_width_reads_are_little_endian() {
    let mut reader = ByteReader::new(b"\x0a\x01\xfe\xff\xff\xff\x07");
    assert_eq!(reader.read_u16_le(), Ok(0x010a));
    assert_eq!(reader.read_i32_le(), Ok(-2));
    assert_eq!(reader.read_u8(), Ok(7));
    assert_eq!(reader.read_u8(), Err(ReadError::UnexpectedEof));
    assert_eq!(reader.position(), 7);
}

#[test]
fn short_reads_leave_the_position() {
    let mut reader = ByteReader::new(b"\x01\x02\x03");
    assert_eq!(reader.read_i32_le(), Err(ReadError::UnexpectedEof));
    assert_eq!(reader.read_exact(4), Err(ReadError::UnexpectedEof));
    assert_eq!(reader.position(), 0);
    assert_eq!(reader.read_exact(2), Ok(&b"\x01\x02"[..]));
    assert_eq!(reader.read_u16_le(), Err(ReadError::UnexpectedEof));
    assert_eq!(reader.position(), 2);
}
