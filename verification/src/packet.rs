//! The binary frame codec of the push protocol.
//!
//! A frame is a 16-byte big-endian header followed by a body:
//! `total_len: u32, header_len: u16, version: u16, operation: u32,
//! sequence: u32, body`. A frame with `version == 2` carries a compressed
//! container of further frames, which decoding inflates and flattens.

use vstd::prelude::*;

use crate::errors::ProtocolError;

verus! {

pub const HEADER_LEN: u16 = 16;

pub const OP_HEARTBEAT: u32 = 2;
pub const OP_HEARTBEAT_REPLY: u32 = 3;
pub const OP_SEND_EVENT: u32 = 5;
pub const OP_AUTH: u32 = 7;
pub const OP_AUTH_REPLY: u32 = 8;

/// Body is the raw payload.
pub const VERSION_PLAIN: u16 = 1;
/// Body is a compressed container of nested frames.
pub const VERSION_COMPRESSED: u16 = 2;

/// How deep compressed containers may nest before decoding gives up;
/// nested compressed frames are server-influenced input, so the depth is bounded.
pub const MAX_NESTING_DEPTH: u32 = 8;
/// Upper bound on the size a compressed body may inflate to.
pub const MAX_INFLATED_LEN: usize = 16777216;

/// One decoded frame of the wire protocol.
#[derive(Debug, Clone)]
pub struct BiliPacket {
    pub packet_len: u32,
    pub header_len: u16,
    pub version: u16,
    pub operation: u32,
    pub sequence: u32,
    pub body: Vec<u8>,
}

/// Mathematical model of one frame.
pub struct SpecPacket {
    pub packet_len: u32,
    pub header_len: u16,
    pub version: u16,
    pub operation: u32,
    pub sequence: u32,
    pub body: Seq<u8>,
}

impl View for BiliPacket {
    type V = SpecPacket;

    open spec fn view(&self) -> SpecPacket {
        SpecPacket {
            packet_len: self.packet_len,
            header_len: self.header_len,
            version: self.version,
            operation: self.operation,
            sequence: self.sequence,
            body: self.body@,
        }
    }
}

/// The big-endian value of two bytes.
pub open spec fn spec_u16_be(s: Seq<u8>) -> u16
    recommends
        s.len() == 2,
{
    (s[0] * 0x100 + s[1]) as u16
}

/// The big-endian value of four bytes.
pub open spec fn spec_u32_be(s: Seq<u8>) -> u32
    recommends
        s.len() == 4,
{
    (s[0] * 0x1000000 + s[1] * 0x10000 + s[2] * 0x100 + s[3]) as u32
}

/// The two big-endian bytes of a 16-bit value.
pub open spec fn spec_u16_be_bytes(x: u16) -> Seq<u8> {
    seq![(x / 0x100) as u8, (x % 0x100) as u8]
}

/// The four big-endian bytes of a 32-bit value.
pub open spec fn spec_u32_be_bytes(x: u32) -> Seq<u8> {
    seq![
        (x / 0x1000000) as u8,
        ((x / 0x10000) % 0x100) as u8,
        ((x / 0x100) % 0x100) as u8,
        (x % 0x100) as u8,
    ]
}

pub proof fn lemma_u16_be_round_trip(x: u16)
    ensures
        spec_u16_be(spec_u16_be_bytes(x)) == x,
{
    assert(((x / 0x100) as u8) * 0x100 + ((x % 0x100) as u8) == x) by (bit_vector);
}

pub proof fn lemma_u32_be_round_trip(x: u32)
    ensures
        spec_u32_be(spec_u32_be_bytes(x)) == x,
{
    assert(((x / 0x1000000) as u8) * 0x1000000 + (((x / 0x10000) % 0x100) as u8) * 0x10000
        + (((x / 0x100) % 0x100) as u8) * 0x100 + ((x % 0x100) as u8) == x) by (bit_vector);
}

/// Reads two big-endian bytes at `offset`.
fn read_u16_be(data: &[u8], offset: usize) -> (r: u16)
    requires
        offset + 2 <= data@.len(),
    ensures
        r == spec_u16_be(data@.subrange(offset as int, offset as int + 2)),
{
    let b0 = data[offset];
    let b1 = data[offset + 1];
    (b0 as u16) * 0x100 + (b1 as u16)
}

/// Reads four big-endian bytes at `offset`.
fn read_u32_be(data: &[u8], offset: usize) -> (r: u32)
    requires
        offset + 4 <= data@.len(),
    ensures
        r == spec_u32_be(data@.subrange(offset as int, offset as int + 4)),
{
    let b0 = data[offset];
    let b1 = data[offset + 1];
    let b2 = data[offset + 2];
    let b3 = data[offset + 3];
    (b0 as u32) * 0x1000000 + (b1 as u32) * 0x10000 + (b2 as u32) * 0x100 + (b3 as u32)
}

/// Appends the two big-endian bytes of `x`.
fn push_u16_be(out: &mut Vec<u8>, x: u16)
    ensures
        final(out)@ == old(out)@ + spec_u16_be_bytes(x),
{
    out.push((x / 0x100) as u8);
    out.push((x % 0x100) as u8);
    assert(out@ =~= old(out)@ + spec_u16_be_bytes(x));
}

/// Appends the four big-endian bytes of `x`.
fn push_u32_be(out: &mut Vec<u8>, x: u32)
    ensures
        final(out)@ == old(out)@ + spec_u32_be_bytes(x),
{
    out.push((x / 0x1000000) as u8);
    out.push(((x / 0x10000) % 0x100) as u8);
    out.push(((x / 0x100) % 0x100) as u8);
    out.push((x % 0x100) as u8);
    assert(out@ =~= old(out)@ + spec_u32_be_bytes(x));
}

/// The encoding of one plain client frame: a 16-byte header with
/// `version = 1` and `sequence = 1`, followed by the body.
pub open spec fn spec_encode(operation: u32, body: Seq<u8>) -> Seq<u8>
    recommends
        16 + body.len() <= u32::MAX,
{
    spec_frame_bytes(VERSION_PLAIN, operation, body)
}

/// The bytes of one frame with the given version, operation and body,
/// with `header_len = 16` and `sequence = 1`.
pub open spec fn spec_frame_bytes(version: u16, operation: u32, body: Seq<u8>) -> Seq<u8>
    recommends
        16 + body.len() <= u32::MAX,
{
    spec_u32_be_bytes((16 + body.len()) as u32) + spec_u16_be_bytes(16u16) + spec_u16_be_bytes(
        version,
    ) + spec_u32_be_bytes(operation) + spec_u32_be_bytes(1u32) + body
}

/// Encodes one client frame with the given operation and body.
pub fn encode_packet(operation: u32, body: &[u8]) -> (r: Vec<u8>)
    requires
        16 + body@.len() <= u32::MAX,
    ensures
        r@ == spec_encode(operation, body@),
        r@.len() == 16 + body@.len(),
{
    let mut buffer: Vec<u8> = Vec::new();
    let packet_len = 16 + body.len() as u32;
    push_u32_be(&mut buffer, packet_len);
    push_u16_be(&mut buffer, HEADER_LEN);
    push_u16_be(&mut buffer, VERSION_PLAIN);
    push_u32_be(&mut buffer, operation);
    push_u32_be(&mut buffer, 1u32);
    buffer.extend_from_slice(body);
    assert(buffer@ =~= spec_encode(operation, body@));
    buffer
}

/// What the protocol's stream-compression format inflates the given bytes
/// to, or `None` when they are not a well-formed compressed stream.
pub uninterp spec fn spec_inflate(data: Seq<u8>) -> Option<Seq<u8>>;

/// Relies on flate2's `ZlibDecoder`: reading it to the end yields the whole
/// inflated stream, or an error when the input is not a valid zlib stream.
#[verifier::external_body]
fn zlib_inflate(data: &[u8]) -> (r: Option<Vec<u8>>)
    ensures
        r matches Some(d) ==> spec_inflate(data@) == Some(d@),
        r is None ==> spec_inflate(data@) is None,
{
    let mut decoder = flate2::read::ZlibDecoder::new(data);
    let mut out = Vec::new();
    match std::io::Read::read_to_end(&mut decoder, &mut out) {
        Ok(_) => Some(out),
        Err(_) => None,
    }
}

/// The frames a byte buffer decodes to, scanning frame by frame from the
/// front. The scan stops quietly at a truncated or zero-length tail; it
/// fails on a header longer than its frame, on a malformed or oversized
/// compressed body, and on containers nested deeper than `depth`.
pub open spec fn spec_decode(data: Seq<u8>, depth: nat) -> Result<Seq<SpecPacket>, ProtocolError>
    decreases depth, data.len(),
{
    if data.len() < 16 {
        Ok(Seq::empty())
    } else {
        let total_len = spec_u32_be(data.subrange(0, 4)) as int;
        if total_len == 0 || total_len > data.len() {
            Ok(Seq::empty())
        } else {
            let header_len = spec_u16_be(data.subrange(4, 6)) as int;
            let version = spec_u16_be(data.subrange(6, 8));
            let operation = spec_u32_be(data.subrange(8, 12));
            let sequence = spec_u32_be(data.subrange(12, 16));
            if header_len > total_len {
                Err(ProtocolError::MalformedHeader)
            } else {
                let body = data.subrange(header_len, total_len);
                let rest = spec_decode(data.skip(total_len), depth);
                if version == VERSION_COMPRESSED {
                    if depth == 0 {
                        Err(ProtocolError::DepthExceeded)
                    } else {
                        match spec_inflate(body) {
                            Option::None => Err(ProtocolError::InflateFailed),
                            Option::Some(inner) => if inner.len() > MAX_INFLATED_LEN {
                                Err(ProtocolError::InflatedTooLarge)
                            } else {
                                match spec_decode(inner, (depth - 1) as nat) {
                                    Err(e) => Err(e),
                                    Ok(frames) => match rest {
                                        Err(e) => Err(e),
                                        Ok(r) => Ok(frames + r),
                                    },
                                }
                            },
                        }
                    }
                } else {
                    match rest {
                        Err(e) => Err(e),
                        Ok(r) => Ok(
                            seq![
                                SpecPacket {
                                    packet_len: total_len as u32,
                                    header_len: header_len as u16,
                                    version,
                                    operation,
                                    sequence,
                                    body,
                                },
                            ] + r,
                        ),
                    }
                }
            }
        }
    }
}

/// Puts already-decoded frames in front of the outcome of a further scan.
pub open spec fn prepend_decoded(
    front: Seq<SpecPacket>,
    rest: Result<Seq<SpecPacket>, ProtocolError>,
) -> Result<Seq<SpecPacket>, ProtocolError> {
    match rest {
        Ok(r) => Ok(front + r),
        Err(e) => Err(e),
    }
}

/// The model a packet list decodes to.
pub open spec fn spec_packet_views(packets: Seq<BiliPacket>) -> Seq<SpecPacket> {
    packets.map_values(|p: BiliPacket| p@)
}

/// Decodes every complete frame of `data`, inflating and flattening
/// compressed containers up to the fixed nesting limit.
pub fn decode_packets(data: &[u8]) -> (r: Result<Vec<BiliPacket>, ProtocolError>)
    ensures
        r matches Ok(v) ==> spec_decode(data@, MAX_NESTING_DEPTH as nat) == Ok::<
            _,
            ProtocolError,
        >(spec_packet_views(v@)),
        r matches Err(e) ==> spec_decode(data@, MAX_NESTING_DEPTH as nat) == Err::<
            Seq<SpecPacket>,
            _,
        >(e),
{
    decode_with_depth(data, MAX_NESTING_DEPTH)
}

fn decode_with_depth(data: &[u8], depth: u32) -> (r: Result<Vec<BiliPacket>, ProtocolError>)
    ensures
        r matches Ok(v) ==> spec_decode(data@, depth as nat) == Ok::<_, ProtocolError>(
            spec_packet_views(v@),
        ),
        r matches Err(e) ==> spec_decode(data@, depth as nat) == Err::<Seq<SpecPacket>, _>(e),
    decreases depth, data@.len(),
{
    let ghost d = depth as nat;
    let mut packets: Vec<BiliPacket> = Vec::new();
    let mut offset: usize = 0;
    proof {
        assert(data@.skip(0) =~= data@);
        assert(spec_packet_views(packets@) =~= Seq::<SpecPacket>::empty());
        assert(spec_decode(data@, d) == prepend_decoded(
            spec_packet_views(packets@),
            spec_decode(data@.skip(offset as int), d),
        ));
    }
    loop
        invariant
            offset <= data@.len(),
            d == depth as nat,
            spec_decode(data@, d) == prepend_decoded(
                spec_packet_views(packets@),
                spec_decode(data@.skip(offset as int), d),
            ),
        decreases data@.len() - offset,
    {
        let ghost sfx = data@.skip(offset as int);
        if data.len() - offset < 16 {
            proof {
                assert(spec_decode(sfx, d) == Ok::<Seq<SpecPacket>, ProtocolError>(Seq::empty()));
                assert(spec_packet_views(packets@) + Seq::<SpecPacket>::empty() =~= spec_packet_views(
                    packets@,
                ));
            }
            return Ok(packets);
        }
        proof {
            assert(sfx.subrange(0, 4) =~= data@.subrange(offset as int, offset as int + 4));
        }
        let total_len_u32 = read_u32_be(data, offset);
        let total_len = total_len_u32 as usize;
        if total_len == 0 || total_len > data.len() - offset {
            proof {
                assert(spec_decode(sfx, d) == Ok::<Seq<SpecPacket>, ProtocolError>(Seq::empty()));
                assert(spec_packet_views(packets@) + Seq::<SpecPacket>::empty() =~= spec_packet_views(
                    packets@,
                ));
            }
            return Ok(packets);
        }
        proof {
            assert(sfx.subrange(4, 6) =~= data@.subrange(offset as int + 4, offset as int + 6));
            assert(sfx.subrange(6, 8) =~= data@.subrange(offset as int + 6, offset as int + 8));
            assert(sfx.subrange(8, 12) =~= data@.subrange(offset as int + 8, offset as int + 12));
            assert(sfx.subrange(12, 16) =~= data@.subrange(offset as int + 12, offset as int + 16));
        }
        let header_len = read_u16_be(data, offset + 4);
        let version = read_u16_be(data, offset + 6);
        let operation = read_u32_be(data, offset + 8);
        let sequence = read_u32_be(data, offset + 12);
        if header_len as usize > total_len {
            proof {
                assert(spec_decode(sfx, d) == Err::<Seq<SpecPacket>, ProtocolError>(
                    ProtocolError::MalformedHeader,
                ));
            }
            return Err(ProtocolError::MalformedHeader);
        }
        let body_slice = vstd::slice::slice_subrange(
            data,
            offset + header_len as usize,
            offset + total_len,
        );
        let ghost spec_body = sfx.subrange(header_len as int, total_len as int);
        proof {
            assert(body_slice@ =~= spec_body);
            assert(sfx.skip(total_len as int) =~= data@.skip(offset as int + total_len as int));
        }
        if version == VERSION_COMPRESSED {
            if depth == 0 {
                return Err(ProtocolError::DepthExceeded);
            }
            match zlib_inflate(body_slice) {
                Option::None => {
                    return Err(ProtocolError::InflateFailed);
                },
                Option::Some(inflated) => {
                    if inflated.len() > MAX_INFLATED_LEN {
                        return Err(ProtocolError::InflatedTooLarge);
                    }
                    match decode_with_depth(inflated.as_slice(), depth - 1) {
                        Err(e) => {
                            return Err(e);
                        },
                        Ok(mut inner) => {
                            let ghost old_packets = packets@;
                            let ghost inner_views = spec_packet_views(inner@);
                            packets.append(&mut inner);
                            proof {
                                assert(spec_packet_views(packets@) =~= spec_packet_views(
                                    old_packets,
                                ) + inner_views);
                                lemma_prepend_shift(
                                    spec_packet_views(old_packets),
                                    inner_views,
                                    spec_decode(data@.skip(offset as int + total_len as int), d),
                                );
                            }
                        },
                    }
                },
            }
        } else {
            let body = vstd::slice::slice_to_vec(body_slice);
            let ghost old_packets = packets@;
            packets.push(
                BiliPacket { packet_len: total_len_u32, header_len, version, operation, sequence, body },
            );
            proof {
                let head = SpecPacket {
                    packet_len: total_len_u32,
                    header_len,
                    version,
                    operation,
                    sequence,
                    body: spec_body,
                };
                assert(spec_packet_views(packets@) =~~= spec_packet_views(old_packets) + seq![head]);
                lemma_prepend_shift(
                    spec_packet_views(old_packets),
                    seq![head],
                    spec_decode(data@.skip(offset as int + total_len as int), d),
                );
            }
        }
        offset = offset + total_len;
    }
}

/// The frame invariant: the declared total length covers the header, and
/// the frame is not itself a compressed container.
pub open spec fn spec_packet_wf(p: SpecPacket) -> bool {
    p.packet_len >= p.header_len && p.version != VERSION_COMPRESSED
}

/// Every frame decoding emits satisfies the frame invariant: a header
/// longer than its frame is refused instead, and compressed containers
/// are always flattened, never handed out.
pub proof fn lemma_decoded_packets_wf(data: Seq<u8>, depth: nat)
    ensures
        spec_decode(data, depth) matches Ok(ps) ==> forall|i: int|
            0 <= i < ps.len() ==> spec_packet_wf(#[trigger] ps[i]),
    decreases depth, data.len(),
{
    if data.len() >= 16 {
        let total_len = spec_u32_be(data.subrange(0, 4)) as int;
        if total_len != 0 && total_len <= data.len() {
            let header_len = spec_u16_be(data.subrange(4, 6)) as int;
            let version = spec_u16_be(data.subrange(6, 8));
            if header_len <= total_len {
                let body = data.subrange(header_len, total_len);
                lemma_decoded_packets_wf(data.skip(total_len), depth);
                if version == VERSION_COMPRESSED && depth > 0 {
                    match spec_inflate(body) {
                        Option::Some(inner) => {
                            if inner.len() <= MAX_INFLATED_LEN {
                                lemma_decoded_packets_wf(inner, (depth - 1) as nat);
                            }
                        },
                        Option::None => {
                        },
                    }
                }
            }
        }
    }
}

/// How the bytes of one framed message lie inside a larger buffer: the
/// header fields read back as written, the body follows the header, and
/// the rest of the buffer follows the frame.
proof fn lemma_frame_layout(version: u16, operation: u32, body: Seq<u8>, rest: Seq<u8>)
    requires
        16 + body.len() <= u32::MAX,
    ensures
        (spec_frame_bytes(version, operation, body) + rest).len() == 16 + body.len() + rest.len(),
        spec_u32_be((spec_frame_bytes(version, operation, body) + rest).subrange(0, 4)) == 16
            + body.len(),
        spec_u16_be((spec_frame_bytes(version, operation, body) + rest).subrange(4, 6)) == 16,
        spec_u16_be((spec_frame_bytes(version, operation, body) + rest).subrange(6, 8)) == version,
        spec_u32_be((spec_frame_bytes(version, operation, body) + rest).subrange(8, 12))
            == operation,
        spec_u32_be((spec_frame_bytes(version, operation, body) + rest).subrange(12, 16)) == 1,
        (spec_frame_bytes(version, operation, body) + rest).subrange(
            16,
            16 + body.len() as int,
        ) == body,
        (spec_frame_bytes(version, operation, body) + rest).skip(16 + body.len() as int) == rest,
{
    let tl = (16 + body.len()) as u32;
    let data = spec_frame_bytes(version, operation, body) + rest;
    assert(data.subrange(0, 4) =~= spec_u32_be_bytes(tl));
    assert(data.subrange(4, 6) =~= spec_u16_be_bytes(16u16));
    assert(data.subrange(6, 8) =~= spec_u16_be_bytes(version));
    assert(data.subrange(8, 12) =~= spec_u32_be_bytes(operation));
    assert(data.subrange(12, 16) =~= spec_u32_be_bytes(1u32));
    assert(data.subrange(16, 16 + body.len() as int) =~= body);
    assert(data.skip(16 + body.len() as int) =~= rest);
    lemma_u32_be_round_trip(tl);
    lemma_u16_be_round_trip(16u16);
    lemma_u16_be_round_trip(version);
    lemma_u32_be_round_trip(operation);
    lemma_u32_be_round_trip(1u32);
}

/// The frame model that one plain frame decodes to.
pub open spec fn spec_plain_packet(version: u16, operation: u32, body: Seq<u8>) -> SpecPacket
    recommends
        16 + body.len() <= u32::MAX,
{
    SpecPacket {
        packet_len: (16 + body.len()) as u32,
        header_len: 16,
        version,
        operation,
        sequence: 1,
        body,
    }
}

/// Scanning a buffer that starts with one complete uncompressed frame
/// yields that frame and then whatever the remainder of the buffer yields.
pub proof fn lemma_decode_first_frame(
    version: u16,
    operation: u32,
    body: Seq<u8>,
    rest: Seq<u8>,
    depth: nat,
)
    requires
        16 + body.len() <= u32::MAX,
        version != VERSION_COMPRESSED,
    ensures
        spec_decode(spec_frame_bytes(version, operation, body) + rest, depth) == prepend_decoded(
            seq![spec_plain_packet(version, operation, body)],
            spec_decode(rest, depth),
        ),
{
    lemma_frame_layout(version, operation, body, rest);
}

/// A buffer whose first declared frame is incomplete, zero-length, or
/// shorter than a header yields no frames at all: the scan stops quietly.
pub proof fn lemma_decode_stops(data: Seq<u8>, depth: nat)
    requires
        data.len() < 16 || spec_u32_be(data.subrange(0, 4)) == 0 || spec_u32_be(
            data.subrange(0, 4),
        ) > data.len(),
    ensures
        spec_decode(data, depth) == Ok::<Seq<SpecPacket>, ProtocolError>(Seq::empty()),
{
}

/// Round trip: decoding the encoding of one client frame yields exactly
/// that frame, with `version = 1` and `sequence = 1`, for any operation
/// and any body that fits in a frame.
pub proof fn lemma_decode_encode_round_trip(operation: u32, body: Seq<u8>, depth: nat)
    requires
        16 + body.len() <= u32::MAX,
    ensures
        spec_decode(spec_encode(operation, body), depth) == Ok::<Seq<SpecPacket>, ProtocolError>(
            seq![spec_plain_packet(VERSION_PLAIN, operation, body)],
        ),
{
    lemma_decode_first_frame(VERSION_PLAIN, operation, body, Seq::empty(), depth);
    assert(spec_encode(operation, body) + Seq::<u8>::empty() =~= spec_encode(operation, body));
    assert(spec_decode(Seq::<u8>::empty(), depth) == Ok::<Seq<SpecPacket>, ProtocolError>(
        Seq::empty(),
    ));
    assert(seq![spec_plain_packet(VERSION_PLAIN, operation, body)] + Seq::<SpecPacket>::empty()
        =~= seq![spec_plain_packet(VERSION_PLAIN, operation, body)]);
}

/// A complete frame followed by an incomplete tail decodes to exactly that
/// one frame: the truncated tail is ignored, and no partial frame is emitted.
pub proof fn lemma_decode_ignores_incomplete_tail(
    operation: u32,
    body: Seq<u8>,
    tail: Seq<u8>,
    depth: nat,
)
    requires
        16 + body.len() <= u32::MAX,
        tail.len() < 16 || spec_u32_be(tail.subrange(0, 4)) == 0 || spec_u32_be(
            tail.subrange(0, 4),
        ) > tail.len(),
    ensures
        spec_decode(spec_encode(operation, body) + tail, depth) == Ok::<
            Seq<SpecPacket>,
            ProtocolError,
        >(seq![spec_plain_packet(VERSION_PLAIN, operation, body)]),
{
    lemma_decode_first_frame(VERSION_PLAIN, operation, body, tail, depth);
    lemma_decode_stops(tail, depth);
    assert(seq![spec_plain_packet(VERSION_PLAIN, operation, body)] + Seq::<SpecPacket>::empty()
        =~= seq![spec_plain_packet(VERSION_PLAIN, operation, body)]);
}

/// The concatenated encodings of a list of client frames.
pub open spec fn spec_encode_all(items: Seq<(u32, Seq<u8>)>) -> Seq<u8>
    decreases items.len(),
{
    if items.len() == 0 {
        Seq::empty()
    } else {
        spec_encode(items[0].0, items[0].1) + spec_encode_all(items.drop_first())
    }
}

/// Whether every body in the list fits in one frame.
pub open spec fn spec_all_fit(items: Seq<(u32, Seq<u8>)>) -> bool {
    forall|i: int| 0 <= i < items.len() ==> 16 + #[trigger] items[i].1.len() <= u32::MAX
}

/// The frame models of a list of client frames.
pub open spec fn spec_plain_packets(items: Seq<(u32, Seq<u8>)>) -> Seq<SpecPacket> {
    items.map_values(|it: (u32, Seq<u8>)| spec_plain_packet(VERSION_PLAIN, it.0, it.1))
}

/// A buffer that is exactly the concatenated encodings of N client frames
/// decodes to exactly those N frames, in order.
pub proof fn lemma_decode_encode_all(items: Seq<(u32, Seq<u8>)>, depth: nat)
    requires
        spec_all_fit(items),
    ensures
        spec_decode(spec_encode_all(items), depth) == Ok::<Seq<SpecPacket>, ProtocolError>(
            spec_plain_packets(items),
        ),
    decreases items.len(),
{
    if items.len() == 0 {
        assert(spec_plain_packets(items) =~= Seq::<SpecPacket>::empty());
    } else {
        let tail = items.drop_first();
        lemma_decode_encode_all(tail, depth);
        lemma_decode_first_frame(
            VERSION_PLAIN,
            items[0].0,
            items[0].1,
            spec_encode_all(tail),
            depth,
        );
        assert(spec_plain_packets(items) =~~= seq![
            spec_plain_packet(VERSION_PLAIN, items[0].0, items[0].1),
        ] + spec_plain_packets(tail));
    }
}

/// Recursive flattening: a compressed frame whose inflated body is the
/// concatenation of N valid plain frames decodes to exactly those N frames.
pub proof fn lemma_decode_compressed_container(
    operation: u32,
    zbody: Seq<u8>,
    items: Seq<(u32, Seq<u8>)>,
    depth: nat,
)
    requires
        16 + zbody.len() <= u32::MAX,
        depth >= 1,
        spec_inflate(zbody) == Some(spec_encode_all(items)),
        spec_encode_all(items).len() <= MAX_INFLATED_LEN,
        spec_all_fit(items),
    ensures
        spec_decode(spec_frame_bytes(VERSION_COMPRESSED, operation, zbody), depth) == Ok::<
            Seq<SpecPacket>,
            ProtocolError,
        >(spec_plain_packets(items)),
{
    let data = spec_frame_bytes(VERSION_COMPRESSED, operation, zbody);
    assert(data =~= spec_frame_bytes(VERSION_COMPRESSED, operation, zbody) + Seq::<u8>::empty());
    lemma_frame_layout(VERSION_COMPRESSED, operation, zbody, Seq::empty());
    lemma_decode_encode_all(items, (depth - 1) as nat);
    assert(spec_decode(Seq::<u8>::empty(), depth) == Ok::<Seq<SpecPacket>, ProtocolError>(
        Seq::empty(),
    ));
    assert(spec_plain_packets(items) + Seq::<SpecPacket>::empty() =~= spec_plain_packets(items));
}

/// Frames already emitted may be moved out of the pending scan one group
/// at a time without changing the decoded whole.
proof fn lemma_prepend_shift(
    front: Seq<SpecPacket>,
    mid: Seq<SpecPacket>,
    rest: Result<Seq<SpecPacket>, ProtocolError>,
)
    ensures
        prepend_decoded(front, prepend_decoded(mid, rest)) == prepend_decoded(front + mid, rest),
{
    match rest {
        Ok(r) => {
            assert(front + (mid + r) =~~= (front + mid) + r);
        },
        Err(_) => {},
    }
}

} // verus!

