use vstd::prelude::*;

use crate::packet::{
    info_request_bytes, inspect, GoldSrcPacket, PacketParseError, A2S_INFO_REQUEST, A2S_INFO_REQUEST_KIND,
    MAX_INSPECTED_SIZE, SINGLE_PACKET,
};
use crate::reader::{find_nul, le_i32, le_u16, lossy_utf8, ByteReader};

verus! {

/// The packet type of an information response (`'I'`).
pub const A2S_INFO_RESPONSE_KIND: u8 = 0x49;

/// Length of the text that follows the type byte of an information request.
pub const A2S_INFO_REQUEST_SIGNATURE_LEN: usize = 20;

/// What kind of server answers.
#[derive(Debug, Clone, Copy, PartialEq, Eq, Structural)]
pub enum ServerType {
    /// `'d'`
    DedicatedServer,
    /// `'l'`, a server run by a playing client
    ListenServer,
    /// `'p'`
    SourceTvRelay,
}

/// The operating system of a server.
#[derive(Debug, Clone, Copy, PartialEq, Eq, Structural)]
pub enum ServerPlatform {
    /// `'l'`
    Linux,
    /// `'w'`
    Windows,
    /// `'m'`, or `'o'` as older servers write it
    Mac,
}

/// Whether joining a server takes a password.
#[derive(Debug, Clone, Copy, PartialEq, Eq, Structural)]
pub enum PasswordStatus {
    /// `0`
    Public,
    /// `1`
    Private,
}

/// Whether a server runs the anti-cheat service.
#[derive(Debug, Clone, Copy, PartialEq, Eq, Structural)]
pub enum VacProtection {
    /// `0`
    Unsecured,
    /// `1`
    Secured,
}

pub open spec fn server_type_of(raw: u8) -> Option<ServerType> {
    if raw == 0x64 {
        Some(ServerType::DedicatedServer)
    } else if raw == 0x6c {
        Some(ServerType::ListenServer)
    } else if raw == 0x70 {
        Some(ServerType::SourceTvRelay)
    } else {
        None
    }
}

pub open spec fn server_platform_of(raw: u8) -> Option<ServerPlatform> {
    if raw == 0x6c {
        Some(ServerPlatform::Linux)
    } else if raw == 0x77 {
        Some(ServerPlatform::Windows)
    } else if raw == 0x6d || raw == 0x6f {
        Some(ServerPlatform::Mac)
    } else {
        None
    }
}

pub open spec fn password_status_of(raw: u8) -> Option<PasswordStatus> {
    if raw == 0 {
        Some(PasswordStatus::Public)
    } else if raw == 1 {
        Some(PasswordStatus::Private)
    } else {
        None
    }
}

pub open spec fn vac_protection_of(raw: u8) -> Option<VacProtection> {
    if raw == 0 {
        Some(VacProtection::Unsecured)
    } else if raw == 1 {
        Some(VacProtection::Secured)
    } else {
        None
    }
}

impl ServerType {
    pub fn from_u8(raw: u8) -> (r: Option<ServerType>)
        ensures
            r == server_type_of(raw),
    {
        match raw {
            0x64 => Some(ServerType::DedicatedServer),
            0x6c => Some(ServerType::ListenServer),
            0x70 => Some(ServerType::SourceTvRelay),
            _ => None,
        }
    }
}

impl ServerPlatform {
    pub fn from_u8(raw: u8) -> (r: Option<ServerPlatform>)
        ensures
            r == server_platform_of(raw),
    {
        match raw {
            0x6c => Some(ServerPlatform::Linux),
            0x77 => Some(ServerPlatform::Windows),
            0x6d => Some(ServerPlatform::Mac),
            0x6f => Some(ServerPlatform::Mac),
            _ => None,
        }
    }
}

impl PasswordStatus {
    pub fn from_u8(raw: u8) -> (r: Option<PasswordStatus>)
        ensures
            r == password_status_of(raw),
    {
        match raw {
            0 => Some(PasswordStatus::Public),
            1 => Some(PasswordStatus::Private),
            _ => None,
        }
    }
}

impl VacProtection {
    pub fn from_u8(raw: u8) -> (r: Option<VacProtection>)
        ensures
            r == vac_protection_of(raw),
    {
        match raw {
            0 => Some(VacProtection::Unsecured),
            1 => Some(VacProtection::Secured),
            _ => None,
        }
    }
}

/// A decoded query or response.
#[derive(Debug, PartialEq, Eq)]
pub enum GoldSourceQuery {
    A2sInfoRequest,
    A2sInfoResponse {
        protocol_version: u8,
        server_name: String,
        map: String,
        folder: String,
        game: String,
        game_steamid: u16,
        players: u8,
        max_players: u8,
        bots: u8,
        server_type: ServerType,
        server_platform: ServerPlatform,
        password_status: PasswordStatus,
        vac_status: VacProtection,
        version: String,
    },
}

/// The fields of an information response, with its texts as characters.
pub struct InfoView {
    pub protocol_version: u8,
    pub server_name: Seq<char>,
    pub map: Seq<char>,
    pub folder: Seq<char>,
    pub game: Seq<char>,
    pub game_steamid: u16,
    pub players: u8,
    pub max_players: u8,
    pub bots: u8,
    pub server_type: ServerType,
    pub server_platform: ServerPlatform,
    pub password_status: PasswordStatus,
    pub vac_status: VacProtection,
    pub version: Seq<char>,
}

pub enum QueryView {
    InfoRequest,
    InfoResponse(InfoView),
}

impl View for GoldSourceQuery {
    type V = QueryView;

    open spec fn view(&self) -> QueryView {
        match self {
            GoldSourceQuery::A2sInfoRequest => QueryView::InfoRequest,
            GoldSourceQuery::A2sInfoResponse {
                protocol_version,
                server_name,
                map,
                folder,
                game,
                game_steamid,
                players,
                max_players,
                bots,
                server_type,
                server_platform,
                password_status,
                vac_status,
                version,
            } => QueryView::InfoResponse(
                InfoView {
                    protocol_version: *protocol_version,
                    server_name: server_name@,
                    map: map@,
                    folder: folder@,
                    game: game@,
                    game_steamid: *game_steamid,
                    players: *players,
                    max_players: *max_players,
                    bots: *bots,
                    server_type: *server_type,
                    server_platform: *server_platform,
                    password_status: *password_status,
                    vac_status: *vac_status,
                    version: version@,
                },
            ),
        }
    }
}

/// The outcome of decoding from the front of a buffer: a value and the
/// number of bytes it took, `None` while the buffer stops before the value
/// is complete, or an error.
pub type Decoded = Result<Option<(QueryView, int)>, PacketParseError>;

/// An information request after its type byte, read at `p`.
pub open spec fn parse_info_request(b: Seq<u8>, p: int) -> Decoded {
    if b.len() < p + A2S_INFO_REQUEST_SIGNATURE_LEN {
        Ok(None)
    } else if b.subrange(p, p + A2S_INFO_REQUEST_SIGNATURE_LEN) == info_request_bytes().subrange(
        MAX_INSPECTED_SIZE as int,
        A2S_INFO_REQUEST@.len() as int,
    ) {
        Ok(Some((QueryView::InfoRequest, p + A2S_INFO_REQUEST_SIGNATURE_LEN)))
    } else {
        Err(PacketParseError::MailformedPacket)
    }
}

/// An information response after its type byte, read at `p`: a version
/// byte, four zero-ended texts (name, map, folder, game), the application id
/// (16 bits), players, maximum players, bots, server type, platform,
/// password status, anti-cheat status, a zero-ended version text, and an
/// optional extended-data flag byte that is consumed when present.
pub open spec fn parse_info_response(b: Seq<u8>, p: int) -> Decoded {
    if p >= b.len() {
        Ok(None)
    } else {
        match find_nul(b, p + 1) {
            None => Ok(None),
            Some(e1) => match find_nul(b, e1 + 1) {
                None => Ok(None),
                Some(e2) => match find_nul(b, e2 + 1) {
                    None => Ok(None),
                    Some(e3) => match find_nul(b, e3 + 1) {
                        None => Ok(None),
                        Some(e4) => parse_info_tail(b, p, e1, e2, e3, e4),
                    },
                },
            },
        }
    }
}

/// The part of an information response after its four leading texts, which
/// end at `e1` to `e4`.
pub open spec fn parse_info_tail(b: Seq<u8>, p: int, e1: int, e2: int, e3: int, e4: int) -> Decoded {
    let q = e4 + 1;
    if b.len() < q + 6 {
        Ok(None)
    } else if server_type_of(b[q + 5]) is None {
        Err(PacketParseError::MailformedPacket)
    } else if b.len() < q + 7 {
        Ok(None)
    } else if server_platform_of(b[q + 6]) is None {
        Err(PacketParseError::MailformedPacket)
    } else if b.len() < q + 8 {
        Ok(None)
    } else if password_status_of(b[q + 7]) is None {
        Err(PacketParseError::MailformedPacket)
    } else if b.len() < q + 9 {
        Ok(None)
    } else if vac_protection_of(b[q + 8]) is None {
        Err(PacketParseError::MailformedPacket)
    } else {
        match find_nul(b, q + 9) {
            None => Ok(None),
            Some(e5) => {
                let end = if e5 + 1 < b.len() {
                    e5 + 2
                } else {
                    e5 + 1
                };
                let info = InfoView {
                    protocol_version: b[p],
                    server_name: lossy_utf8(b.subrange(p + 1, e1)),
                    map: lossy_utf8(b.subrange(e1 + 1, e2)),
                    folder: lossy_utf8(b.subrange(e2 + 1, e3)),
                    game: lossy_utf8(b.subrange(e3 + 1, e4)),
                    game_steamid: le_u16(b, q) as u16,
                    players: b[q + 2],
                    max_players: b[q + 3],
                    bots: b[q + 4],
                    server_type: server_type_of(b[q + 5])->0,
                    server_platform: server_platform_of(b[q + 6])->0,
                    password_status: password_status_of(b[q + 7])->0,
                    vac_status: vac_protection_of(b[q + 8])->0,
                    version: lossy_utf8(b.subrange(q + 9, e5)),
                };
                Ok(Some((QueryView::InfoResponse(info), end)))
            },
        }
    }
}

/// Decoding from the front of a buffer that may hold only part of a packet:
/// a header, which must be the single-packet one, a type byte, and the body
/// of that type.
pub open spec fn decode_stream(b: Seq<u8>) -> Decoded {
    if b.len() < 4 {
        Ok(None)
    } else if le_i32(b, 0) != SINGLE_PACKET {
        Err(PacketParseError::UnsupportedSplitStatus(le_i32(b, 0) as i32))
    } else if b.len() < MAX_INSPECTED_SIZE {
        Ok(None)
    } else if b[4] == A2S_INFO_REQUEST_KIND {
        parse_info_request(b, MAX_INSPECTED_SIZE as int)
    } else if b[4] == A2S_INFO_RESPONSE_KIND {
        parse_info_response(b, MAX_INSPECTED_SIZE as int)
    } else {
        Err(PacketParseError::UnsupportedPacketType(b[4]))
    }
}

/// Decoding one whole datagram: too short a datagram, or one that ends
/// before its packet does, is malformed.
pub open spec fn decode_datagram_spec(b: Seq<u8>) -> Result<QueryView, PacketParseError> {
    if b.len() < MAX_INSPECTED_SIZE {
        Err(PacketParseError::MailformedPacket)
    } else {
        match decode_stream(b) {
            Ok(Some((v, _))) => Ok(v),
            Ok(None) => Err(PacketParseError::MailformedPacket),
            Err(e) => Err(e),
        }
    }
}

/// The bytes of a value that can be encoded; only requests can.
pub open spec fn encode_spec(v: QueryView) -> Option<Seq<u8>> {
    match v {
        QueryView::InfoRequest => Some(info_request_bytes()),
        QueryView::InfoResponse(_) => None,
    }
}

/// `r` is what `s` describes, with `pos` the position reached on success.
pub open spec fn body_decoded_as(
    r: Result<Option<GoldSourceQuery>, PacketParseError>,
    pos: int,
    s: Decoded,
) -> bool {
    match s {
        Ok(Some((v, end))) => (r matches Ok(Some(q)) && q@ == v && pos == end),
        Ok(None) => r matches Ok(None),
        Err(e) => (r matches Err(f) && f == e),
    }
}

/// `r` is what `s` describes.
pub open spec fn decoded_as(r: Result<Option<(GoldSourceQuery, usize)>, PacketParseError>, s: Decoded) -> bool {
    match s {
        Ok(Some((v, end))) => (r matches Ok(Some((q, n))) && q@ == v && n == end),
        Ok(None) => r matches Ok(None),
        Err(e) => (r matches Err(f) && f == e),
    }
}

/// Why a value could not be encoded.
#[derive(Debug, Clone, Copy, PartialEq, Eq, Structural)]
pub enum EncodeError {
    /// Only requests are encoded.
    UnsupportedItem,
}

/// Reads the text that follows the type byte of an information request.
/// `None` when the input stops before the text does; malformed when the
/// text differs.
pub fn decode_a2s_info_request(reader: &mut ByteReader) -> (r: Result<
    Option<GoldSourceQuery>,
    PacketParseError,
>)
    ensures
        final(reader).data() == old(reader).data(),
        body_decoded_as(
            r,
            final(reader).pos(),
            parse_info_request(old(reader).data(), old(reader).pos()),
        ),
{
    let start_pos = reader.position();
    let ghost start = start_pos as int;
    let ghost data = reader.data();
    let signature = match reader.read_exact(A2S_INFO_REQUEST_SIGNATURE_LEN) {
        Ok(s) => s,
        Err(_) => return Ok(None),
    };
    let ghost expected = info_request_bytes().subrange(
        MAX_INSPECTED_SIZE as int,
        A2S_INFO_REQUEST@.len() as int,
    );
    assert(start + A2S_INFO_REQUEST_SIGNATURE_LEN <= data.len());
    let mut i: usize = 0;
    while i < A2S_INFO_REQUEST_SIGNATURE_LEN
        invariant
            signature@ == data.subrange(start, start + A2S_INFO_REQUEST_SIGNATURE_LEN),
            0 <= start,
            start + A2S_INFO_REQUEST_SIGNATURE_LEN <= data.len(),
            reader.data() == data,
            reader.pos() == start + A2S_INFO_REQUEST_SIGNATURE_LEN,
            data == old(reader).data(),
            start == old(reader).pos(),
            expected == info_request_bytes().subrange(
                MAX_INSPECTED_SIZE as int,
                A2S_INFO_REQUEST@.len() as int,
            ),
            i <= A2S_INFO_REQUEST_SIGNATURE_LEN,
            forall|j: int| 0 <= j < i ==> signature@[j] == expected[j],
        decreases A2S_INFO_REQUEST_SIGNATURE_LEN - i,
    {
        if signature[i] != A2S_INFO_REQUEST[MAX_INSPECTED_SIZE + i] {
            assert(signature@[i as int] != expected[i as int]);
            return Err(PacketParseError::MailformedPacket);
        }
        i = i + 1;
    }
    assert(signature@ =~= expected);
    Ok(Some(GoldSourceQuery::A2sInfoRequest))
}

/// Reads the body of an information response. `None` when the input stops
/// before the body does; malformed when a server type, platform, password
/// status or anti-cheat status byte has no meaning.
pub fn decode_a2s_info_response(reader: &mut ByteReader) -> (r: Result<
    Option<GoldSourceQuery>,
    PacketParseError,
>)
    ensures
        final(reader).data() == old(reader).data(),
        body_decoded_as(
            r,
            final(reader).pos(),
            parse_info_response(old(reader).data(), old(reader).pos()),
        ),
{
    let protocol_version = match reader.read_u8() {
        Ok(v) => v,
        Err(_) => return Ok(None),
    };
    let server_name = match reader.read_stringz() {
        Ok(v) => v,
        Err(_) => return Ok(None),
    };
    let map = match reader.read_stringz() {
        Ok(v) => v,
        Err(_) => return Ok(None),
    };
    let folder = match reader.read_stringz() {
        Ok(v) => v,
        Err(_) => return Ok(None),
    };
    let game = match reader.read_stringz() {
        Ok(v) => v,
        Err(_) => return Ok(None),
    };
    let game_steamid = match reader.read_u16_le() {
        Ok(v) => v,
        Err(_) => return Ok(None),
    };
    let players = match reader.read_u8() {
        Ok(v) => v,
        Err(_) => return Ok(None),
    };
    let max_players = match reader.read_u8() {
        Ok(v) => v,
        Err(_) => return Ok(None),
    };
    let bots = match reader.read_u8() {
        Ok(v) => v,
        Err(_) => return Ok(None),
    };
    let raw_server_type = match reader.read_u8() {
        Ok(v) => v,
        Err(_) => return Ok(None),
    };
    let server_type = match ServerType::from_u8(raw_server_type) {
        Some(v) => v,
        None => return Err(PacketParseError::MailformedPacket),
    };
    let raw_server_platform = match reader.read_u8() {
        Ok(v) => v,
        Err(_) => return Ok(None),
    };
    let server_platform = match ServerPlatform::from_u8(raw_server_platform) {
        Some(v) => v,
        None => return Err(PacketParseError::MailformedPacket),
    };
    let raw_password_status = match reader.read_u8() {
        Ok(v) => v,
        Err(_) => return Ok(None),
    };
    let password_status = match PasswordStatus::from_u8(raw_password_status) {
        Some(v) => v,
        None => return Err(PacketParseError::MailformedPacket),
    };
    let raw_vac_status = match reader.read_u8() {
        Ok(v) => v,
        Err(_) => return Ok(None),
    };
    let vac_status = match VacProtection::from_u8(raw_vac_status) {
        Some(v) => v,
        None => return Err(PacketParseError::MailformedPacket),
    };
    let version = match reader.read_stringz() {
        Ok(v) => v,
        Err(_) => return Ok(None),
    };
    // The extended-data flag is optional: when present it is consumed.
    let _extra_data_flag = reader.read_u8();
    Ok(
        Some(
            GoldSourceQuery::A2sInfoResponse {
                protocol_version,
                server_name,
                map,
                folder,
                game,
                game_steamid,
                players,
                max_players,
                bots,
                server_type,
                server_platform,
                password_status,
                vac_status,
                version,
            },
        ),
    )
}

/// Decodes packets from the front of a buffer that may hold only part of
/// one, and encodes requests.
#[derive(Debug)]
pub struct GoldSourceQueryCodec {}

impl Default for GoldSourceQueryCodec {
    fn default() -> (r: Self)
        ensures
            r == (GoldSourceQueryCodec {}),
    {
        GoldSourceQueryCodec {  }
    }
}

impl GoldSourceQueryCodec {
    pub fn new() -> (r: Self)
        ensures
            r == (GoldSourceQueryCodec {}),
    {
        GoldSourceQueryCodec {  }
    }

    /// Decodes the packet at the front of `src`, returning it with the number
    /// of bytes it took, or `None` while `src` stops before the packet does.
    pub fn decode(&mut self, src: &[u8]) -> (r: Result<
        Option<(GoldSourceQuery, usize)>,
        PacketParseError,
    >)
        ensures
            decoded_as(r, decode_stream(src@)),
    {
        let mut reader = ByteReader::new(src);
        let header = match reader.read_i32_le() {
            Ok(h) => h,
            Err(_) => return Ok(None),
        };
        if header != SINGLE_PACKET {
            return Err(PacketParseError::UnsupportedSplitStatus(header));
        }
        let kind = match reader.read_u8() {
            Ok(k) => k,
            Err(_) => return Ok(None),
        };
        let body = if kind == A2S_INFO_REQUEST_KIND {
            decode_a2s_info_request(&mut reader)
        } else if kind == A2S_INFO_RESPONSE_KIND {
            decode_a2s_info_response(&mut reader)
        } else {
            return Err(PacketParseError::UnsupportedPacketType(kind));
        };
        match body {
            Ok(Some(packet)) => Ok(Some((packet, reader.position()))),
            Ok(None) => Ok(None),
            Err(e) => Err(e),
        }
    }

    /// Appends the bytes of `item` to `dst`; only requests can be encoded, and
    /// on failure `dst` is left as it was.
    pub fn encode(&mut self, item: GoldSourceQuery, dst: &mut Vec<u8>) -> (r: Result<
        (),
        EncodeError,
    >)
        ensures
            match encode_spec(item@) {
                Some(bytes) => r is Ok && final(dst)@ == old(dst)@ + bytes,
                None => r == Err::<(), EncodeError>(EncodeError::UnsupportedItem) && final(dst)@
                    == old(dst)@,
            },
    {
        match item {
            GoldSourceQuery::A2sInfoRequest => {},
            _ => return Err(EncodeError::UnsupportedItem),
        }
        dst.extend_from_slice(A2S_INFO_REQUEST.as_slice());
        Ok(())
    }
}

/// Decodes one whole datagram: one shorter than a header and a type byte, or
/// one that ends before its packet does, is malformed.
pub fn decode_datagram(datagram: &[u8]) -> (r: Result<GoldSourceQuery, PacketParseError>)
    ensures
        match decode_datagram_spec(datagram@) {
            Ok(v) => (r matches Ok(q) && q@ == v),
            Err(e) => r == Err::<GoldSourceQuery, PacketParseError>(e),
        },
{
    if datagram.len() < MAX_INSPECTED_SIZE {
        return Err(PacketParseError::MailformedPacket);
    }
    let mut codec = GoldSourceQueryCodec::new();
    match codec.decode(datagram) {
        Ok(Some((packet, _))) => Ok(packet),
        Ok(None) => Err(PacketParseError::MailformedPacket),
        Err(e) => Err(e),
    }
}

/// Decoding the encoding of a request gives the request back, whatever
/// follows it in the buffer: as a stream (taking exactly the request's
/// bytes), as a datagram, and by inspection of the first bytes.
pub proof fn lemma_request_round_trip(rest: Seq<u8>)
    ensures
        encode_spec(QueryView::InfoRequest) is Some,
        decode_stream(encode_spec(QueryView::InfoRequest)->0 + rest) == Ok::<
            Option<(QueryView, int)>,
            PacketParseError,
        >(Some((QueryView::InfoRequest, A2S_INFO_REQUEST@.len() as int))),
        decode_datagram_spec(encode_spec(QueryView::InfoRequest)->0 + rest) == Ok::<
            QueryView,
            PacketParseError,
        >(QueryView::InfoRequest),
        inspect(encode_spec(QueryView::InfoRequest)->0 + rest) == Ok::<
            GoldSrcPacket,
            PacketParseError,
        >(GoldSrcPacket::A2sInfoRequest),
{
    let b = info_request_bytes() + rest;
    assert(b[0] == 0xff && b[1] == 0xff && b[2] == 0xff && b[3] == 0xff);
    assert(le_i32(b, 0) == -1);
    assert(b[4] == A2S_INFO_REQUEST_KIND);
    assert(b.subrange(5, 25) =~= info_request_bytes().subrange(5, 25));
}

/// Fewer bytes than a header and a type byte are malformed.
pub proof fn lemma_short_input_malformed(b: Seq<u8>)
    requires
        b.len() < MAX_INSPECTED_SIZE,
    ensures
        decode_datagram_spec(b) == Err::<QueryView, PacketParseError>(
            PacketParseError::MailformedPacket,
        ),
        inspect(b) == Err::<GoldSrcPacket, PacketParseError>(PacketParseError::MailformedPacket),
{
}

/// A header other than the single-packet one is refused, and the error
/// carries the header's exact 32-bit value.
pub proof fn lemma_split_status_reported(b: Seq<u8>)
    requires
        b.len() >= 4,
        le_i32(b, 0) != SINGLE_PACKET,
    ensures
        i32::MIN <= le_i32(b, 0) <= i32::MAX,
        decode_stream(b) == Err::<Option<(QueryView, int)>, PacketParseError>(
            PacketParseError::UnsupportedSplitStatus(le_i32(b, 0) as i32),
        ),
        b.len() >= MAX_INSPECTED_SIZE ==> decode_datagram_spec(b) == Err::<
            QueryView,
            PacketParseError,
        >(PacketParseError::UnsupportedSplitStatus(le_i32(b, 0) as i32)),
        b.len() >= MAX_INSPECTED_SIZE ==> inspect(b) == Err::<GoldSrcPacket, PacketParseError>(
            PacketParseError::UnsupportedSplitStatus(le_i32(b, 0) as i32),
        ),
{
}

/// A single packet whose type byte is neither a request nor a response is
/// refused, and the error carries that byte.
pub proof fn lemma_unknown_type_reported(b: Seq<u8>)
    requires
        b.len() >= MAX_INSPECTED_SIZE,
        le_i32(b, 0) == SINGLE_PACKET,
        b[4] != A2S_INFO_REQUEST_KIND,
        b[4] != A2S_INFO_RESPONSE_KIND,
    ensures
        decode_stream(b) == Err::<Option<(QueryView, int)>, PacketParseError>(
            PacketParseError::UnsupportedPacketType(b[4]),
        ),
        decode_datagram_spec(b) == Err::<QueryView, PacketParseError>(
            PacketParseError::UnsupportedPacketType(b[4]),
        ),
        inspect(b) == Err::<GoldSrcPacket, PacketParseError>(
            PacketParseError::UnsupportedPacketType(b[4]),
        ),
{
}

} // verus!
