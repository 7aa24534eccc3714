//! A caching proxy for the GoldSrc/Source server query protocol: the wire
//! codec, a time-to-live cache entry, and the decision logic of the caching
//! pipeline, each with its contract.

pub mod caching_server;
pub mod clock;
pub mod codec;
pub mod packet;
pub mod reader;
pub mod ttl;

pub use caching_server::CachingServer;
pub use clock::Clock;
pub use codec::{
    decode_a2s_info_request, decode_a2s_info_response, decode_datagram, EncodeError,
    GoldSourceQuery, GoldSourceQueryCodec, PasswordStatus, ServerPlatform, ServerType,
    VacProtection,
};
pub use packet::{
    GoldSrcPacket, PacketParseError, SerializeError, A2S_INFO_REQUEST, MAX_INSPECTED_SIZE,
};
pub use reader::{ByteReader, ReadError};
pub use ttl::Ttl;
