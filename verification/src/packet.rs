//! Wire frames of the command protocol.
//!
//! A request travels as `command id (2 bytes) | up tag (1) | payload length (4) |
//! payload`. An outbound frame starts with a kind byte: a reply is
//! `0 | command id (2) | result code (2) | up tag (1) | down tag (1) | payload
//! length (4) | payload`, a push is `1 | command id (2) | down tag (1) | payload
//! length (4) | payload`. Multi-byte fields are big-endian; the result code is a
//! two's complement 16-bit value. The declared payload length must equal the
//! number of bytes that follow the header, so a decoder never reserves more than
//! it was handed.

use vstd::prelude::*;
use vstd::slice::slice_subrange;
use vstd::slice::slice_to_vec;

verus! {

/// Bytes in front of a request's payload.
pub const REQUEST_HEADER_LEN: usize = 7;

/// Bytes in front of a reply's payload.
pub const REPLY_HEADER_LEN: usize = 11;

/// Bytes in front of a push's payload.
pub const PUSH_HEADER_LEN: usize = 8;

/// Kind byte of a reply frame.
pub const KIND_REPLY: u8 = 0;

/// Kind byte of a push frame.
pub const KIND_PUSH: u8 = 1;

/// The most payload bytes a reader accepts from a stream for one request.
pub const MAX_REQUEST_PAYLOAD: u32 = 1048576;

/// Identifier of a protocol command, as it travels on the wire.
#[derive(Clone, Copy, Debug, PartialEq, Eq, Hash, Structural)]
pub struct CmdId(pub u16);

/// Why a frame could not be read.
#[derive(Clone, Copy, Debug, PartialEq, Eq, Structural)]
pub enum DecodeError {
    /// The frame is shorter than its header.
    Truncated,
    /// The declared payload length differs from the number of bytes after the header.
    LengthMismatch,
    /// The kind byte of an outbound frame is neither reply nor push.
    UnknownKind,
    /// A header announces more payload than a reader accepts from a stream.
    PayloadTooLarge,
}

/// Why a packet could not be written.
#[derive(Clone, Copy, Debug, PartialEq, Eq, Structural)]
pub enum EncodeError {
    /// The payload is longer than the four-byte length field can say.
    PayloadTooLarge,
}

/// A request as the client sent it.
#[derive(Clone, Debug)]
pub struct ClientPacket {
    pub cmd_id: u16,
    pub up_tag: u8,
    pub data: Vec<u8>,
}

/// Mathematical value of a request.
pub struct RequestModel {
    pub cmd_id: u16,
    pub up_tag: u8,
    pub data: Seq<u8>,
}

impl View for ClientPacket {
    type V = RequestModel;

    open spec fn view(&self) -> RequestModel {
        RequestModel { cmd_id: self.cmd_id, up_tag: self.up_tag, data: self.data@ }
    }
}

/// An envelope the server sends.
#[derive(Clone, Debug)]
pub enum CommandPacket {
    /// The one answer to a request; `up_tag` repeats the request's tag.
    Reply { cmd_id: CmdId, body: Vec<u8>, result_code: i16, up_tag: u8, down_tag: u8 },
    /// A notification that answers no request.
    Push { cmd_id: CmdId, body: Vec<u8>, down_tag: u8 },
}

/// Mathematical value of an outbound envelope.
pub enum PacketModel {
    Reply { cmd_id: CmdId, body: Seq<u8>, result_code: i16, up_tag: u8, down_tag: u8 },
    Push { cmd_id: CmdId, body: Seq<u8>, down_tag: u8 },
}

impl View for CommandPacket {
    type V = PacketModel;

    open spec fn view(&self) -> PacketModel {
        match *self {
            CommandPacket::Reply { cmd_id, body, result_code, up_tag, down_tag } => {
                PacketModel::Reply { cmd_id, body: body@, result_code, up_tag, down_tag }
            },
            CommandPacket::Push { cmd_id, body, down_tag } => {
                PacketModel::Push { cmd_id, body: body@, down_tag }
            },
        }
    }
}

impl PacketModel {
    /// The payload, whichever the kind.
    pub open spec fn body(self) -> Seq<u8> {
        match self {
            PacketModel::Reply { body, .. } => body,
            PacketModel::Push { body, .. } => body,
        }
    }

    /// The server-chosen tag, whichever the kind.
    pub open spec fn down_tag(self) -> u8 {
        match self {
            PacketModel::Reply { down_tag, .. } => down_tag,
            PacketModel::Push { down_tag, .. } => down_tag,
        }
    }

    /// The command, whichever the kind.
    pub open spec fn cmd_id(self) -> CmdId {
        match self {
            PacketModel::Reply { cmd_id, .. } => cmd_id,
            PacketModel::Push { cmd_id, .. } => cmd_id,
        }
    }
}

/// The two bytes of a 16-bit value, most significant first.
pub open spec fn be16_bytes(v: u16) -> Seq<u8> {
    seq![(v / 256) as u8, (v % 256) as u8]
}

/// The value that two bytes spell, most significant first.
pub open spec fn be16_value(hi: u8, lo: u8) -> u16 {
    (hi * 256 + lo) as u16
}

/// The four bytes of a 32-bit value, most significant first.
pub open spec fn be32_bytes(v: u32) -> Seq<u8> {
    seq![
        (v / 16777216) as u8,
        (v / 65536 % 256) as u8,
        (v / 256 % 256) as u8,
        (v % 256) as u8,
    ]
}

/// The value that four bytes spell, most significant first.
pub open spec fn be32_value(b0: u8, b1: u8, b2: u8, b3: u8) -> u32 {
    (b0 * 16777216 + b1 * 65536 + b2 * 256 + b3) as u32
}

/// The 16 bits of a signed value in two's complement.
pub open spec fn i16_bits(v: i16) -> u16 {
    if v >= 0 {
        v as u16
    } else {
        (v + 65536) as u16
    }
}

/// The signed value that 16 bits stand for in two's complement.
pub open spec fn i16_from_bits(bits: u16) -> i16 {
    if bits < 32768 {
        bits as i16
    } else {
        (bits - 65536) as i16
    }
}

/// The frame of a request.
pub open spec fn request_frame(p: RequestModel) -> Seq<u8> {
    be16_bytes(p.cmd_id) + seq![p.up_tag] + be32_bytes(p.data.len() as u32) + p.data
}

/// What a frame holds when read as a request.
pub open spec fn parse_request(bytes: Seq<u8>) -> Result<RequestModel, DecodeError> {
    if bytes.len() < REQUEST_HEADER_LEN {
        Err(DecodeError::Truncated)
    } else if be32_value(bytes[3], bytes[4], bytes[5], bytes[6]) != bytes.len()
        - REQUEST_HEADER_LEN {
        Err(DecodeError::LengthMismatch)
    } else {
        Ok(
            RequestModel {
                cmd_id: be16_value(bytes[0], bytes[1]),
                up_tag: bytes[2],
                data: bytes.subrange(REQUEST_HEADER_LEN as int, bytes.len() as int),
            },
        )
    }
}

/// The frame of an outbound envelope.
pub open spec fn packet_frame(p: PacketModel) -> Seq<u8> {
    match p {
        PacketModel::Reply { cmd_id, body, result_code, up_tag, down_tag } => {
            seq![KIND_REPLY] + be16_bytes(cmd_id.0) + be16_bytes(i16_bits(result_code)) + seq![
                up_tag,
                down_tag,
            ] + be32_bytes(body.len() as u32) + body
        },
        PacketModel::Push { cmd_id, body, down_tag } => {
            seq![KIND_PUSH] + be16_bytes(cmd_id.0) + seq![down_tag] + be32_bytes(body.len() as u32)
                + body
        },
    }
}

/// What a frame holds when read as an outbound envelope.
pub open spec fn parse_packet(bytes: Seq<u8>) -> Result<PacketModel, DecodeError> {
    if bytes.len() < 1 {
        Err(DecodeError::Truncated)
    } else if bytes[0] == KIND_REPLY {
        if bytes.len() < REPLY_HEADER_LEN {
            Err(DecodeError::Truncated)
        } else if be32_value(bytes[7], bytes[8], bytes[9], bytes[10]) != bytes.len()
            - REPLY_HEADER_LEN {
            Err(DecodeError::LengthMismatch)
        } else {
            Ok(
                PacketModel::Reply {
                    cmd_id: CmdId(be16_value(bytes[1], bytes[2])),
                    body: bytes.subrange(REPLY_HEADER_LEN as int, bytes.len() as int),
                    result_code: i16_from_bits(be16_value(bytes[3], bytes[4])),
                    up_tag: bytes[5],
                    down_tag: bytes[6],
                },
            )
        }
    } else if bytes[0] == KIND_PUSH {
        if bytes.len() < PUSH_HEADER_LEN {
            Err(DecodeError::Truncated)
        } else if be32_value(bytes[4], bytes[5], bytes[6], bytes[7]) != bytes.len()
            - PUSH_HEADER_LEN {
            Err(DecodeError::LengthMismatch)
        } else {
            Ok(
                PacketModel::Push {
                    cmd_id: CmdId(be16_value(bytes[1], bytes[2])),
                    body: bytes.subrange(PUSH_HEADER_LEN as int, bytes.len() as int),
                    down_tag: bytes[3],
                },
            )
        }
    } else {
        Err(DecodeError::UnknownKind)
    }
}

/// Splitting a 16-bit value into bytes and joining them gives the value back.
pub proof fn lemma_be16_round_trip(v: u16)
    ensures
        be16_bytes(v).len() == 2,
        be16_value(be16_bytes(v)[0], be16_bytes(v)[1]) == v,
{
}

/// Joining two bytes and splitting the value gives the bytes back.
pub proof fn lemma_be16_bytes_of_value(hi: u8, lo: u8)
    ensures
        be16_bytes(be16_value(hi, lo)) == seq![hi, lo],
{
    assert(be16_bytes(be16_value(hi, lo)) =~= seq![hi, lo]);
}

/// Splitting a 32-bit value into bytes and joining them gives the value back.
pub proof fn lemma_be32_round_trip(v: u32)
    ensures
        be32_bytes(v).len() == 4,
        be32_value(be32_bytes(v)[0], be32_bytes(v)[1], be32_bytes(v)[2], be32_bytes(v)[3]) == v,
{
}

/// Joining four bytes and splitting the value gives the bytes back.
pub proof fn lemma_be32_bytes_of_value(b0: u8, b1: u8, b2: u8, b3: u8)
    ensures
        be32_bytes(be32_value(b0, b1, b2, b3)) == seq![b0, b1, b2, b3],
{
    let v: int = b0 * 16777216 + b1 * 65536 + b2 * 256 + b3;
    assert(v / 16777216 == b0);
    assert(v / 65536 == b0 * 256 + b1);
    assert(v / 256 == b0 * 65536 + b1 * 256 + b2);
    assert((b0 * 256 + b1) % 256 == b1);
    assert((b0 * 65536 + b1 * 256 + b2) % 256 == b2);
    assert(v % 256 == b3);
    assert(be32_value(b0, b1, b2, b3) == v);
    assert(be32_bytes(be32_value(b0, b1, b2, b3)) =~= seq![b0, b1, b2, b3]);
}

/// Two's complement bits and the signed value they stand for agree both ways.
pub proof fn lemma_i16_bits_round_trip(v: i16, bits: u16)
    ensures
        i16_from_bits(i16_bits(v)) == v,
        i16_bits(i16_from_bits(bits)) == bits,
{
}

/// A request that fits the length field reads back from its frame unchanged.
pub proof fn lemma_request_round_trip(p: RequestModel)
    requires
        p.data.len() <= u32::MAX,
    ensures
        parse_request(request_frame(p)) == Ok::<RequestModel, DecodeError>(p),
{
    let f = request_frame(p);
    lemma_be16_round_trip(p.cmd_id);
    lemma_be32_round_trip(p.data.len() as u32);
    assert(f.len() == REQUEST_HEADER_LEN + p.data.len());
    assert(f.subrange(REQUEST_HEADER_LEN as int, f.len() as int) =~= p.data);
}

/// A frame that reads as a request is the frame of that request: no two frames
/// stand for one request.
pub proof fn lemma_request_frame_unique(bytes: Seq<u8>)
    requires
        parse_request(bytes) is Ok,
    ensures
        request_frame(parse_request(bytes)->Ok_0) == bytes,
        parse_request(bytes)->Ok_0.data.len() <= u32::MAX,
{
    let p = parse_request(bytes)->Ok_0;
    lemma_be16_bytes_of_value(bytes[0], bytes[1]);
    lemma_be32_bytes_of_value(bytes[3], bytes[4], bytes[5], bytes[6]);
    assert(request_frame(p) =~= bytes);
}

/// An outbound envelope that fits the length field reads back from its frame
/// unchanged.
pub proof fn lemma_packet_round_trip(p: PacketModel)
    requires
        p.body().len() <= u32::MAX,
    ensures
        parse_packet(packet_frame(p)) == Ok::<PacketModel, DecodeError>(p),
{
    let f = packet_frame(p);
    lemma_be16_round_trip(p.cmd_id().0);
    lemma_be32_round_trip(p.body().len() as u32);
    match p {
        PacketModel::Reply { cmd_id, body, result_code, up_tag, down_tag } => {
            lemma_be16_round_trip(i16_bits(result_code));
            lemma_i16_bits_round_trip(result_code, 0);
            assert(f.len() == REPLY_HEADER_LEN + body.len());
            assert(f.subrange(REPLY_HEADER_LEN as int, f.len() as int) =~= body);
        },
        PacketModel::Push { cmd_id, body, down_tag } => {
            assert(f.len() == PUSH_HEADER_LEN + body.len());
            assert(f.subrange(PUSH_HEADER_LEN as int, f.len() as int) =~= body);
        },
    }
}

/// A reply reaches the client with the up tag and the result code it was made
/// with, whatever they are.
pub proof fn lemma_reply_keeps_up_tag(
    cmd_id: CmdId,
    body: Seq<u8>,
    result_code: i16,
    up_tag: u8,
    down_tag: u8,
)
    requires
        body.len() <= u32::MAX,
    ensures
        parse_packet(
            packet_frame(PacketModel::Reply { cmd_id, body, result_code, up_tag, down_tag }),
        ) matches Ok(PacketModel::Reply { up_tag: echoed, result_code: code, .. }) && echoed
            == up_tag && code == result_code,
{
    lemma_packet_round_trip(PacketModel::Reply { cmd_id, body, result_code, up_tag, down_tag });
}

/// A frame that reads as an outbound envelope is the frame of that envelope.
pub proof fn lemma_packet_frame_unique(bytes: Seq<u8>)
    requires
        parse_packet(bytes) is Ok,
    ensures
        packet_frame(parse_packet(bytes)->Ok_0) == bytes,
        parse_packet(bytes)->Ok_0.body().len() <= u32::MAX,
{
    let p = parse_packet(bytes)->Ok_0;
    lemma_be16_bytes_of_value(bytes[1], bytes[2]);
    if bytes[0] == KIND_REPLY {
        lemma_be16_bytes_of_value(bytes[3], bytes[4]);
        lemma_i16_bits_round_trip(0, be16_value(bytes[3], bytes[4]));
        lemma_be32_bytes_of_value(bytes[7], bytes[8], bytes[9], bytes[10]);
        assert(packet_frame(p) =~= bytes);
    } else {
        lemma_be32_bytes_of_value(bytes[4], bytes[5], bytes[6], bytes[7]);
        assert(packet_frame(p) =~= bytes);
    }
}

fn push_be16(out: &mut Vec<u8>, v: u16)
    ensures
        final(out)@ == old(out)@ + be16_bytes(v),
{
    out.push((v / 256) as u8);
    out.push((v % 256) as u8);
    assert(final(out)@ =~= old(out)@ + be16_bytes(v));
}

fn push_be32(out: &mut Vec<u8>, v: u32)
    ensures
        final(out)@ == old(out)@ + be32_bytes(v),
{
    out.push((v / 16777216) as u8);
    out.push((v / 65536 % 256) as u8);
    out.push((v / 256 % 256) as u8);
    out.push((v % 256) as u8);
    assert(final(out)@ =~= old(out)@ + be32_bytes(v));
}

fn push_all(out: &mut Vec<u8>, bytes: &Vec<u8>)
    ensures
        final(out)@ == old(out)@ + bytes@,
{
    let n = bytes.len();
    let mut i: usize = 0;
    while i < n
        invariant
            n == bytes@.len(),
            i <= n,
            out@ == old(out)@ + bytes@.subrange(0, i as int),
        decreases n - i,
    {
        out.push(bytes[i]);
        i = i + 1;
        assert(out@ =~= old(out)@ + bytes@.subrange(0, i as int));
    }
    assert(bytes@.subrange(0, n as int) =~= bytes@);
}

fn read_be16(hi: u8, lo: u8) -> (v: u16)
    ensures
        v == be16_value(hi, lo),
{
    let h: u16 = hi as u16;
    let l: u16 = lo as u16;
    h * 256 + l
}

fn read_be32(b0: u8, b1: u8, b2: u8, b3: u8) -> (v: u32)
    ensures
        v == be32_value(b0, b1, b2, b3),
{
    let w0: u32 = b0 as u32;
    let w1: u32 = b1 as u32;
    let w2: u32 = b2 as u32;
    let w3: u32 = b3 as u32;
    w0 * 16777216 + w1 * 65536 + w2 * 256 + w3
}

fn bits_of_i16(v: i16) -> (bits: u16)
    ensures
        bits == i16_bits(v),
{
    if v >= 0 {
        v as u16
    } else {
        let wide: i32 = v as i32;
        (wide + 65536) as u16
    }
}

fn i16_of_bits(bits: u16) -> (v: i16)
    ensures
        v == i16_from_bits(bits),
{
    if bits < 32768 {
        bits as i16
    } else {
        let wide: i32 = bits as i32;
        (wide - 65536) as i16
    }
}

/// Whether `declared` is the number of bytes that follow a header of `header` bytes.
fn length_matches(total: usize, header: usize, declared: u32) -> (ok: bool)
    requires
        header <= total,
    ensures
        ok == (declared == total - header),
{
    let rest: u64 = (total - header) as u64;
    let want: u64 = declared as u64;
    rest == want
}

/// The payload length that a request's header announces.
pub open spec fn announced_len(header: Seq<u8>) -> u32 {
    be32_value(header[3], header[4], header[5], header[6])
}

/// Says how many payload bytes follow the header of a request, so that a
/// reader of a stream knows how much to read, and refuses to reserve more than
/// `MAX_REQUEST_PAYLOAD` bytes on the word of a header.
pub fn request_payload_len(header: &[u8]) -> (r: Result<usize, DecodeError>)
    ensures
        r == if header@.len() < REQUEST_HEADER_LEN {
            Err::<usize, DecodeError>(DecodeError::Truncated)
        } else if announced_len(header@) > MAX_REQUEST_PAYLOAD {
            Err::<usize, DecodeError>(DecodeError::PayloadTooLarge)
        } else {
            Ok::<usize, DecodeError>(announced_len(header@) as usize)
        },
{
    if header.len() < REQUEST_HEADER_LEN {
        return Err(DecodeError::Truncated);
    }
    let declared = read_be32(header[3], header[4], header[5], header[6]);
    if declared > MAX_REQUEST_PAYLOAD {
        Err(DecodeError::PayloadTooLarge)
    } else {
        Ok(declared as usize)
    }
}

/// A header followed by as many bytes as it announces is a frame whose length
/// is right: reading it fails neither as truncated nor as mismatched.
pub proof fn lemma_announced_frame_reads(header: Seq<u8>, payload: Seq<u8>)
    requires
        header.len() == REQUEST_HEADER_LEN,
        payload.len() == announced_len(header),
    ensures
        parse_request(header + payload) is Ok,
        parse_request(header + payload)->Ok_0.data == payload,
        parse_request(header + payload)->Ok_0.up_tag == header[2],
        parse_request(header + payload)->Ok_0.cmd_id == be16_value(header[0], header[1]),
{
    let frame = header + payload;
    assert(frame.len() == REQUEST_HEADER_LEN + payload.len());
    assert(frame[3] == header[3] && frame[4] == header[4] && frame[5] == header[5] && frame[6]
        == header[6]);
    assert(frame.subrange(REQUEST_HEADER_LEN as int, frame.len() as int) =~= payload);
}

impl ClientPacket {
    /// Reads one request frame.
    pub fn decode(bytes: &[u8]) -> (r: Result<ClientPacket, DecodeError>)
        ensures
            r matches Ok(p) ==> parse_request(bytes@) == Ok::<RequestModel, DecodeError>(p@),
            r matches Err(e) ==> parse_request(bytes@) == Err::<RequestModel, DecodeError>(e),
    {
        let n = bytes.len();
        if n < REQUEST_HEADER_LEN {
            return Err(DecodeError::Truncated);
        }
        let declared = read_be32(bytes[3], bytes[4], bytes[5], bytes[6]);
        if !length_matches(n, REQUEST_HEADER_LEN, declared) {
            return Err(DecodeError::LengthMismatch);
        }
        let data = slice_to_vec(slice_subrange(bytes, REQUEST_HEADER_LEN, n));
        Ok(ClientPacket { cmd_id: read_be16(bytes[0], bytes[1]), up_tag: bytes[2], data })
    }

    /// Writes the request as one frame.
    pub fn encode(&self) -> (r: Result<Vec<u8>, EncodeError>)
        ensures
            self.data@.len() <= u32::MAX ==> (r matches Ok(frame) && frame@ == request_frame(self@)),
            self.data@.len() > u32::MAX ==> r == Err::<Vec<u8>, EncodeError>(
                EncodeError::PayloadTooLarge,
            ),
    {
        if self.data.len() as u64 > u32::MAX as u64 {
            return Err(EncodeError::PayloadTooLarge);
        }
        let mut out: Vec<u8> = Vec::new();
        push_be16(&mut out, self.cmd_id);
        out.push(self.up_tag);
        push_be32(&mut out, self.data.len() as u32);
        push_all(&mut out, &self.data);
        assert(out@ =~= request_frame(self@));
        Ok(out)
    }
}

impl CommandPacket {
    /// The command this envelope belongs to.
    pub fn cmd_id(&self) -> (id: CmdId)
        ensures
            id == self@.cmd_id(),
    {
        match self {
            CommandPacket::Reply { cmd_id, .. } => *cmd_id,
            CommandPacket::Push { cmd_id, .. } => *cmd_id,
        }
    }

    /// The server-chosen tag of this envelope.
    pub fn down_tag(&self) -> (tag: u8)
        ensures
            tag == self@.down_tag(),
    {
        match self {
            CommandPacket::Reply { down_tag, .. } => *down_tag,
            CommandPacket::Push { down_tag, .. } => *down_tag,
        }
    }

    /// Reads one outbound frame.
    pub fn decode(bytes: &[u8]) -> (r: Result<CommandPacket, DecodeError>)
        ensures
            r matches Ok(p) ==> parse_packet(bytes@) == Ok::<PacketModel, DecodeError>(p@),
            r matches Err(e) ==> parse_packet(bytes@) == Err::<PacketModel, DecodeError>(e),
    {
        let n = bytes.len();
        if n < 1 {
            return Err(DecodeError::Truncated);
        }
        let kind = bytes[0];
        if kind == KIND_REPLY {
            if n < REPLY_HEADER_LEN {
                return Err(DecodeError::Truncated);
            }
            let declared = read_be32(bytes[7], bytes[8], bytes[9], bytes[10]);
            if !length_matches(n, REPLY_HEADER_LEN, declared) {
                return Err(DecodeError::LengthMismatch);
            }
            let body = slice_to_vec(slice_subrange(bytes, REPLY_HEADER_LEN, n));
            Ok(
                CommandPacket::Reply {
                    cmd_id: CmdId(read_be16(bytes[1], bytes[2])),
                    body,
                    result_code: i16_of_bits(read_be16(bytes[3], bytes[4])),
                    up_tag: bytes[5],
                    down_tag: bytes[6],
                },
            )
        } else if kind == KIND_PUSH {
            if n < PUSH_HEADER_LEN {
                return Err(DecodeError::Truncated);
            }
            let declared = read_be32(bytes[4], bytes[5], bytes[6], bytes[7]);
            if !length_matches(n, PUSH_HEADER_LEN, declared) {
                return Err(DecodeError::LengthMismatch);
            }
            let body = slice_to_vec(slice_subrange(bytes, PUSH_HEADER_LEN, n));
            Ok(
                CommandPacket::Push {
                    cmd_id: CmdId(read_be16(bytes[1], bytes[2])),
                    body,
                    down_tag: bytes[3],
                },
            )
        } else {
            Err(DecodeError::UnknownKind)
        }
    }

    /// Writes the envelope as one frame.
    pub fn encode(&self) -> (r: Result<Vec<u8>, EncodeError>)
        ensures
            self@.body().len() <= u32::MAX ==> (r matches Ok(frame) && frame@ == packet_frame(self@)),
            self@.body().len() > u32::MAX ==> r == Err::<Vec<u8>, EncodeError>(
                EncodeError::PayloadTooLarge,
            ),
    {
        let mut out: Vec<u8> = Vec::new();
        match self {
            CommandPacket::Reply { cmd_id, body, result_code, up_tag, down_tag } => {
                if body.len() as u64 > u32::MAX as u64 {
                    return Err(EncodeError::PayloadTooLarge);
                }
                out.push(KIND_REPLY);
                push_be16(&mut out, cmd_id.0);
                push_be16(&mut out, bits_of_i16(*result_code));
                out.push(*up_tag);
                out.push(*down_tag);
                push_be32(&mut out, body.len() as u32);
                push_all(&mut out, body);
                assert(out@ =~= packet_frame(self@));
            },
            CommandPacket::Push { cmd_id, body, down_tag } => {
                if body.len() as u64 > u32::MAX as u64 {
                    return Err(EncodeError::PayloadTooLarge);
                }
                out.push(KIND_PUSH);
                push_be16(&mut out, cmd_id.0);
                out.push(*down_tag);
                push_be32(&mut out, body.len() as u32);
                push_all(&mut out, body);
                assert(out@ =~= packet_frame(self@));
            },
        }
        Ok(out)
    }
}

} // verus!
