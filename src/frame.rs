use vstd::prelude::*;

use crate::errors::Errors;

verus! {

/// Bytes before the payload: the length prefix, then version, message type and tag.
pub const HEADER_LEN: usize = 16;

/// Bytes of the header that the length prefix counts: version, message type and tag.
pub const COUNTED_HEADER_LEN: usize = 12;

/// Message type of every frame of this protocol dialect.
pub const PLIST_MESSAGE_TYPE: u32 = 8;

/// Protocol version written on responses.
pub const PROTOCOL_VERSION: u32 = 1;

/// Largest frame accepted from a client, header included.
pub const MAX_FRAME_LEN: usize = 1048576;

/// One decoded frame: the header fields and the serialized payload.
#[derive(Debug, PartialEq, Eq)]
pub struct Frame {
    pub version: u32,
    pub message_type: u32,
    pub tag: u32,
    pub payload: Vec<u8>,
}

/// The four little-endian bytes of `x`.
pub open spec fn le32(x: u32) -> Seq<u8> {
    seq![
        (x & 0xff) as u8,
        ((x >> 8u32) & 0xff) as u8,
        ((x >> 16u32) & 0xff) as u8,
        ((x >> 24u32) & 0xff) as u8,
    ]
}

/// The little-endian integer held by the four bytes of `b` that start at `at`.
pub open spec fn read_le32(b: Seq<u8>, at: int) -> u32 {
    (b[at] as u32) | ((b[at + 1] as u32) << 8u32) | ((b[at + 2] as u32) << 16u32) | ((
    b[at + 3] as u32) << 24u32)
}

/// The wire form of a frame: length prefix (12 plus the payload length), version,
/// message type, tag, payload.
pub open spec fn frame_bytes(payload: Seq<u8>, message_type: u32, version: u32, tag: u32) -> Seq<
    u8,
> {
    le32((COUNTED_HEADER_LEN + payload.len()) as u32) + le32(version) + le32(message_type) + le32(
        tag,
    ) + payload
}

/// What a buffer decodes to: `None` when it is shorter than the header, else
/// (payload, message type, version, tag).
pub open spec fn parse_frame(b: Seq<u8>) -> Option<(Seq<u8>, u32, u32, u32)> {
    if b.len() < HEADER_LEN {
        None
    } else {
        Some((b.subrange(HEADER_LEN as int, b.len() as int), read_le32(b, 8), read_le32(b, 4), read_le32(b, 12)))
    }
}

/// Total bytes of the frame that starts a buffer, as its length prefix declares.
pub open spec fn declared_frame_len(b: Seq<u8>) -> int
    recommends
        b.len() >= 4,
{
    4 + read_le32(b, 0)
}

/// How many more bytes a buffer needs before it holds a whole frame.
pub open spec fn missing_bytes(b: Seq<u8>) -> int {
    if b.len() < HEADER_LEN {
        HEADER_LEN - b.len()
    } else if declared_frame_len(b) > b.len() {
        declared_frame_len(b) - b.len()
    } else {
        0
    }
}

proof fn lemma_le32_bytes(x: u32)
    ensures
        read_le32(le32(x), 0) == x,
{
    let b = le32(x);
    let b0 = (x & 0xff) as u8;
    let b1 = ((x >> 8u32) & 0xff) as u8;
    let b2 = ((x >> 16u32) & 0xff) as u8;
    let b3 = ((x >> 24u32) & 0xff) as u8;
    assert(b[0] == b0 && b[1] == b1 && b[2] == b2 && b[3] == b3);
    assert((b0 as u32) | ((b1 as u32) << 8u32) | ((b2 as u32) << 16u32) | ((b3 as u32) << 24u32)
        == x) by (bit_vector)
        requires
            b0 == (x & 0xff) as u8,
            b1 == ((x >> 8u32) & 0xff) as u8,
            b2 == ((x >> 16u32) & 0xff) as u8,
            b3 == ((x >> 24u32) & 0xff) as u8,
    ;
}

proof fn lemma_read_shifted(a: Seq<u8>, b: Seq<u8>, x: u32)
    requires
        a.len() % 4 == 0,
        b.len() >= 4,
        b.subrange(0, 4) == le32(x),
    ensures
        read_le32(a + b, a.len() as int) == x,
{
    lemma_le32_bytes(x);
    let s = a + b;
    let k = a.len() as int;
    assert(s[k] == b[0] && s[k + 1] == b[1] && s[k + 2] == b[2] && s[k + 3] == b[3]);
    assert(b[0] == b.subrange(0, 4)[0] && b[1] == b.subrange(0, 4)[1] && b[2] == b.subrange(0, 4)[2] && b[3] == b.subrange(0, 4)[3]);
}

/// Decoding an encoded frame gives back its payload, message type, version and tag.
pub proof fn lemma_decode_encode(payload: Seq<u8>, message_type: u32, version: u32, tag: u32)
    requires
        COUNTED_HEADER_LEN + payload.len() <= u32::MAX,
    ensures
        parse_frame(frame_bytes(payload, message_type, version, tag)) == Some(
            (payload, message_type, version, tag),
        ),
        declared_frame_len(frame_bytes(payload, message_type, version, tag)) == frame_bytes(
            payload,
            message_type,
            version,
            tag,
        ).len(),
        missing_bytes(frame_bytes(payload, message_type, version, tag)) == 0,
{
    let n = (COUNTED_HEADER_LEN + payload.len()) as u32;
    let b = frame_bytes(payload, message_type, version, tag);
    assert(b.len() == HEADER_LEN + payload.len());
    let rest1 = le32(version) + le32(message_type) + le32(tag) + payload;
    let rest2 = le32(message_type) + le32(tag) + payload;
    let rest3 = le32(tag) + payload;
    assert(b =~= le32(n) + rest1);
    assert(b =~= (le32(n) + le32(version)) + rest2);
    assert(b =~= (le32(n) + le32(version) + le32(message_type)) + rest3);
    assert(rest1.subrange(0, 4) =~= le32(version));
    assert(rest2.subrange(0, 4) =~= le32(message_type));
    assert(rest3.subrange(0, 4) =~= le32(tag));
    assert((le32(n) + rest1).subrange(0, 4) =~= le32(n));
    lemma_read_shifted(Seq::<u8>::empty(), b, n);
    assert(Seq::<u8>::empty() + b =~= b);
    assert(b.subrange(0, 4) =~= le32(n));
    lemma_read_shifted(le32(n), rest1, version);
    lemma_read_shifted(le32(n) + le32(version), rest2, message_type);
    lemma_read_shifted(le32(n) + le32(version) + le32(message_type), rest3, tag);
    assert(b.subrange(HEADER_LEN as int, b.len() as int) =~= payload);
}

/// A response built for a decoded request carries that request's tag.
pub proof fn lemma_tag_echo(request: Seq<u8>, payload: Seq<u8>)
    requires
        parse_frame(request) is Some,
        COUNTED_HEADER_LEN + payload.len() <= u32::MAX,
    ensures
        parse_frame(
            frame_bytes(payload, PLIST_MESSAGE_TYPE, PROTOCOL_VERSION, parse_frame(request).unwrap().3),
        ).unwrap().3 == parse_frame(request).unwrap().3,
{
    lemma_decode_encode(payload, PLIST_MESSAGE_TYPE, PROTOCOL_VERSION, parse_frame(request).unwrap().3);
}

fn push_le32(out: &mut Vec<u8>, x: u32)
    ensures
        final(out)@ == old(out)@ + le32(x),
{
    out.push((x & 0xff) as u8);
    out.push(((x >> 8u32) & 0xff) as u8);
    out.push(((x >> 16u32) & 0xff) as u8);
    out.push(((x >> 24u32) & 0xff) as u8);
    assert(final(out)@ =~= old(out)@ + le32(x));
}

fn get_le32(b: &[u8], at: usize) -> (r: u32)
    requires
        at + 4 <= b@.len(),
    ensures
        r == read_le32(b@, at as int),
{
    (b[at] as u32) | ((b[at + 1] as u32) << 8u32) | ((b[at + 2] as u32) << 16u32) | ((b[at
        + 3] as u32) << 24u32)
}

/// Writes a frame: the length prefix, the header, then the serialized payload.
pub fn encode_frame(payload: &[u8], message_type: u32, version: u32, tag: u32) -> (r: Vec<u8>)
    requires
        COUNTED_HEADER_LEN + payload@.len() <= u32::MAX,
    ensures
        r@ == frame_bytes(payload@, message_type, version, tag),
{
    let mut out: Vec<u8> = Vec::new();
    push_le32(&mut out, (COUNTED_HEADER_LEN + payload.len()) as u32);
    push_le32(&mut out, version);
    push_le32(&mut out, message_type);
    push_le32(&mut out, tag);
    let mut i: usize = 0;
    while i < payload.len()
        invariant
            i <= payload@.len(),
            out@ == le32((COUNTED_HEADER_LEN + payload@.len()) as u32) + le32(version) + le32(
                message_type,
            ) + le32(tag) + payload@.take(i as int),
        decreases payload@.len() - i,
    {
        out.push(payload[i]);
        assert(payload@.take(i + 1) =~= payload@.take(i as int).push(payload@[i as int]));
        i += 1;
    }
    assert(payload@.take(payload@.len() as int) =~= payload@);
    out
}

/// Reads a frame: fails with `ProtocolDecode` on a buffer shorter than the header,
/// else takes the header fields and the bytes after the header as the payload.
pub fn decode_frame(bytes: &[u8]) -> (r: Result<Frame, Errors>)
    ensures
        match r {
            Ok(f) => parse_frame(bytes@) == Some((f.payload@, f.message_type, f.version, f.tag)),
            Err(e) => parse_frame(bytes@).is_none() && e == Errors::ProtocolDecode,
        },
{
    if bytes.len() < HEADER_LEN {
        return Err(Errors::ProtocolDecode);
    }
    let version = get_le32(bytes, 4);
    let message_type = get_le32(bytes, 8);
    let tag = get_le32(bytes, 12);
    let mut payload: Vec<u8> = Vec::new();
    let mut i: usize = HEADER_LEN;
    while i < bytes.len()
        invariant
            HEADER_LEN <= i <= bytes@.len(),
            payload@ == bytes@.subrange(HEADER_LEN as int, i as int),
        decreases bytes@.len() - i,
    {
        payload.push(bytes[i]);
        assert(bytes@.subrange(HEADER_LEN as int, i + 1) =~= bytes@.subrange(
            HEADER_LEN as int,
            i as int,
        ).push(bytes@[i as int]));
        i += 1;
    }
    Ok(Frame { version, message_type, tag, payload })
}

/// The response frame to `request`: same tag, this dialect's version and message
/// type, and `payload` as its payload.
pub fn response_frame(request: &Frame, payload: &[u8]) -> (r: Vec<u8>)
    requires
        COUNTED_HEADER_LEN + payload@.len() <= u32::MAX,
    ensures
        r@ == frame_bytes(payload@, PLIST_MESSAGE_TYPE, PROTOCOL_VERSION, request.tag),
        parse_frame(r@) == Some((payload@, PLIST_MESSAGE_TYPE, PROTOCOL_VERSION, request.tag)),
{
    proof {
        lemma_decode_encode(payload@, PLIST_MESSAGE_TYPE, PROTOCOL_VERSION, request.tag);
    }
    encode_frame(payload, PLIST_MESSAGE_TYPE, PROTOCOL_VERSION, request.tag)
}

/// The response frame to `request`, or `ProtocolEncode` when the payload is too
/// long for the length prefix.
pub fn encode_response(request: &Frame, payload: &[u8]) -> (r: Result<Vec<u8>, Errors>)
    ensures
        COUNTED_HEADER_LEN + payload@.len() > u32::MAX ==> r == Err::<Vec<u8>, Errors>(
            Errors::ProtocolEncode,
        ),
        COUNTED_HEADER_LEN + payload@.len() <= u32::MAX ==> (r matches Ok(b) && b@ == frame_bytes(
            payload@,
            PLIST_MESSAGE_TYPE,
            PROTOCOL_VERSION,
            request.tag,
        )),
{
    if payload.len() > u32::MAX as usize - COUNTED_HEADER_LEN {
        Err(Errors::ProtocolEncode)
    } else {
        Ok(response_frame(request, payload))
    }
}

/// How many more bytes `buf` needs before it holds the whole frame that its
/// length prefix declares; 0 once it does.
pub fn bytes_missing(buf: &[u8]) -> (r: usize)
    ensures
        r == missing_bytes(buf@),
{
    if buf.len() < HEADER_LEN {
        return HEADER_LEN - buf.len();
    }
    let declared = get_le32(buf, 0) as usize;
    if declared > buf.len() - 4 {
        declared - (buf.len() - 4)
    } else {
        0
    }
}

/// Whether the frame that `buf` starts stays within `MAX_FRAME_LEN` once whole.
pub fn within_frame_limit(buf: &[u8]) -> (r: bool)
    ensures
        r == (buf@.len() + missing_bytes(buf@) <= MAX_FRAME_LEN),
{
    let missing = bytes_missing(buf);
    buf.len() <= MAX_FRAME_LEN && missing <= MAX_FRAME_LEN - buf.len()
}

} // verus!
