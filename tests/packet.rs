use hlwall::{GoldSrcPacket, PacketParseError, SerializeError, A2S_INFO_REQUEST};
use std::convert::TryFrom;

#[test]
fn test_mailformed_packet() {
    const MAILFORMED_PACKETS: &[&[u8]] = &[
        b"",
        b"\xff\xff\xff",
        b"\xff\xff\xff\xff",
        b"\xff\xff\xff\xffZ",
    ];

    for mailformed_packet in MAILFORMED_PACKETS {
        match GoldSrcPacket::try_from(*mailformed_packet) {
            Err(_) => {}
            other => panic!("Expected parse error, got: {:?}", other),
        }
    }
}

#[test]
fn test_a2s_info_request_parse() {
    const A2S_SHORT_INFO_REQUEST: &[u8] = b"\xff\xff\xff\xffT";

    match GoldSrcPacket::try_from(A2S_SHORT_INFO_REQUEST) {
        Ok(GoldSrcPacket::A2sInfoRequest) => {}
        other => panic!("A2S_INFO_REQUEST Deserialization fail: {:?}", other),
    }
}

#[test]
fn test_a2s_info_request_serialize() {
    let packet = GoldSrcPacket::A2sInfoRequest;
    let mut buf = [0u8; 25];

    let bytes_written = packet
        .serialize(&mut buf)
        .expect("Failed to serialize A2sInfoRequest");
    assert_eq!(&buf[0..bytes_written], &A2S_INFO_REQUEST[..]);
    assert_eq!(bytes_written, A2S_INFO_REQUEST.len());
}

#[test]
fn request_bytes_are_header_type_and_signature() {
    assert_eq!(&A2S_INFO_REQUEST[..], b"\xff\xff\xff\xffTSource Engine Query\0");
}

#[test]
fn inspection_errors_carry_what_was_read() {
    assert_eq!(
        GoldSrcPacket::try_from(&b"\xff\xff\xff"[..]),
        Err(PacketParseError::MailformedPacket)
    );
    assert_eq!(
        GoldSrcPacket::try_from(&b"\xfe\xff\xff\xffT"[..]),
        Err(PacketParseError::UnsupportedSplitStatus(-2))
    );
    assert_eq!(
        GoldSrcPacket::try_from(&b"\x01\x00\x00\x00T"[..]),
        Err(PacketParseError::UnsupportedSplitStatus(1))
    );
    assert_eq!(
        GoldSrcPacket::try_from(&b"\xff\xff\xff\xffZ"[..]),
        Err(PacketParseError::UnsupportedPacketType(b'Z'))
    );
    assert_eq!(
        GoldSrcPacket::try_from(&b"\xff\xff\xff\xffI"[..]),
        Err(PacketParseError::UnsupportedPacketType(b'I'))
    );
}

#[test]
fn inspection_ignores_what_follows_the_type() {
    assert_eq!(
        GoldSrcPacket::try_from(&A2S_INFO_REQUEST[..]),
        Ok(GoldSrcPacket::A2sInfoRequest)
    );
    assert_eq!(
        GoldSrcPacket::try_from(&b"\xff\xff\xff\xffTjunk"[..]),
        Ok(GoldSrcPacket::A2sInfoRequest)
    );
}

#[test]
fn serialize_keeps_the_rest_of_the_buffer() {
    let mut buf = [7u8; 30];
    let n = GoldSrcPacket::A2sInfoRequest.serialize(&mut buf).unwrap();
    assert_eq!(n, 25);
    assert_eq!(&buf[..25], &A2S_INFO_REQUEST[..]);
    assert_eq!(&buf[25..], &[7u8; 5][..]);
}

#[test]
fn serialize_into_a_short_buffer_fails_untouched() {
    let mut buf = [9u8; 24];
    assert_eq!(
        GoldSrcPacket::A2sInfoRequest.serialize(&mut buf),
        Err(SerializeError::BufferTooSmall)
    );
    assert_eq!(buf, [9u8; 24]);
}
