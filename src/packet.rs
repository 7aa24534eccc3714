use vstd::prelude::*;

use crate::reader::{le_i32, ByteReader};

verus! {

/// The largest prefix of a datagram that `GoldSrcPacket::try_from` needs:
/// the 32-bit header and the one-byte packet type.
pub const MAX_INSPECTED_SIZE: usize = 5;

/// The header of a packet that is not split over several datagrams.
pub const SINGLE_PACKET: i32 = -1;

/// The packet type of an information request (`'T'`).
pub const A2S_INFO_REQUEST_KIND: u8 = 0x54;

/// An information request as it travels on the wire: the single-packet
/// header, the type byte `'T'` and the text "Source Engine Query" ended by a
/// zero byte.
pub const A2S_INFO_REQUEST: [u8; 25] = [
    0xff, 0xff, 0xff, 0xff, 0x54,
    0x53, 0x6f, 0x75, 0x72, 0x63, 0x65, 0x20,
    0x45, 0x6e, 0x67, 0x69, 0x6e, 0x65, 0x20,
    0x51, 0x75, 0x65, 0x72, 0x79, 0x00,
];

/// The bytes of an information request.
pub open spec fn info_request_bytes() -> Seq<u8> {
    A2S_INFO_REQUEST@
}

/// The kinds of query that the proxy answers.
#[derive(Debug, Copy, Clone, PartialEq, Eq, Hash, Structural)]
pub enum GoldSrcPacket {
    A2sInfoRequest,
}

/// Why a datagram is not a query that the proxy answers.
#[derive(Debug, Copy, Clone, PartialEq, Eq, Structural)]
pub enum PacketParseError {
    /// Too short, or its content does not follow the protocol.
    MailformedPacket,
    /// A header other than the single-packet one, given as read.
    UnsupportedSplitStatus(i32),
    /// A packet type that is not handled, given as read.
    UnsupportedPacketType(u8),
}

/// Why a packet could not be written out.
#[derive(Debug, Copy, Clone, PartialEq, Eq, Structural)]
pub enum SerializeError {
    /// The buffer cannot hold the whole packet.
    BufferTooSmall,
}

/// What the first bytes of a datagram say: a header and a packet type are
/// needed, the header must be the single-packet one, and the type must be
/// one that the proxy answers.
pub open spec fn inspect(b: Seq<u8>) -> Result<GoldSrcPacket, PacketParseError> {
    if b.len() < MAX_INSPECTED_SIZE {
        Err(PacketParseError::MailformedPacket)
    } else if le_i32(b, 0) != SINGLE_PACKET {
        Err(PacketParseError::UnsupportedSplitStatus(le_i32(b, 0) as i32))
    } else if b[4] == A2S_INFO_REQUEST_KIND {
        Ok(GoldSrcPacket::A2sInfoRequest)
    } else {
        Err(PacketParseError::UnsupportedPacketType(b[4]))
    }
}

/// The bytes that stand for a query on the wire.
pub open spec fn packet_bytes(p: GoldSrcPacket) -> Seq<u8> {
    match p {
        GoldSrcPacket::A2sInfoRequest => info_request_bytes(),
    }
}

impl GoldSrcPacket {
    /// Writes the packet at the start of `buf` and returns how many bytes it
    /// took; the rest of `buf` is left as it was. Fails, writing nothing,
    /// when `buf` is too short.
    pub fn serialize(&self, buf: &mut [u8]) -> (r: Result<usize, SerializeError>)
        ensures
            final(buf)@.len() == old(buf)@.len(),
            old(buf)@.len() >= packet_bytes(*self).len() <==> r is Ok,
            r matches Ok(n) ==> n == packet_bytes(*self).len() && final(buf)@.subrange(0, n as int)
                == packet_bytes(*self) && final(buf)@.subrange(n as int, old(buf)@.len() as int)
                == old(buf)@.subrange(n as int, old(buf)@.len() as int),
            r is Err ==> r == Err::<usize, SerializeError>(SerializeError::BufferTooSmall)
                && final(buf)@ == old(buf)@,
    {
        match *self {
            GoldSrcPacket::A2sInfoRequest => {
                let n = A2S_INFO_REQUEST.len();
                if buf.len() < n {
                    return Err(SerializeError::BufferTooSmall);
                }
                let mut i: usize = 0;
                while i < n
                    invariant
                        n == A2S_INFO_REQUEST@.len(),
                        i <= n <= buf@.len(),
                        buf@.len() == old(buf)@.len(),
                        forall|j: int| 0 <= j < i ==> buf@[j] == A2S_INFO_REQUEST@[j],
                        forall|j: int| n <= j < buf@.len() ==> buf@[j] == old(buf)@[j],
                    decreases n - i,
                {
                    buf[i] = A2S_INFO_REQUEST[i];
                    i = i + 1;
                }
                assert(buf@.subrange(0, n as int) =~= info_request_bytes());
                assert(buf@.subrange(n as int, buf@.len() as int) =~= old(buf)@.subrange(
                    n as int,
                    old(buf)@.len() as int,
                ));
                Ok(n)
            },
        }
    }
}

impl<'a> TryFrom<&'a [u8]> for GoldSrcPacket {
    type Error = PacketParseError;

    /// Reads the header and the packet type at the start of `body`; what
    /// follows them is not looked at.
    fn try_from(body: &'a [u8]) -> (r: Result<GoldSrcPacket, PacketParseError>)
        ensures
            r == inspect(body@),
    {
        if body.len() < MAX_INSPECTED_SIZE {
            return Err(PacketParseError::MailformedPacket);
        }
        let mut reader = ByteReader::new(body);
        let header = match reader.read_i32_le() {
            Ok(h) => h,
            Err(_) => return Err(PacketParseError::MailformedPacket),
        };
        if header != SINGLE_PACKET {
            return Err(PacketParseError::UnsupportedSplitStatus(header));
        }
        let kind = match reader.read_u8() {
            Ok(k) => k,
            Err(_) => return Err(PacketParseError::MailformedPacket),
        };
        if kind == A2S_INFO_REQUEST_KIND {
            Ok(GoldSrcPacket::A2sInfoRequest)
        } else {
            Err(PacketParseError::UnsupportedPacketType(kind))
        }
    }
}

impl<'a> vstd::std_specs::convert::TryFromSpecImpl<&'a [u8]> for GoldSrcPacket {
    open spec fn obeys_try_from_spec() -> bool {
        true
    }

    open spec fn try_from_spec(body: &'a [u8]) -> Result<GoldSrcPacket, PacketParseError> {
        inspect(body@)
    }
}

} // verus!
