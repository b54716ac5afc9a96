//! The fixed-size message header and its byte encoding.
//!
//! Every message travels as a frame: an 8-byte little-endian header carrying
//! a kind tag and the payload length, followed by exactly that many payload
//! bytes.

use vstd::prelude::*;

verus! {

/// Number of bytes of an encoded header.
pub const HEADER_SIZE: usize = 8;

/// Largest payload length a header may declare. The cap bounds what a
/// receiver allocates on the word of a peer it has not yet trusted; 16 MiB is
/// ample for crash-report traffic. Senders enforce the same bound, so every
/// frame this library emits is one its receivers accept.
pub const MAX_PAYLOAD_SIZE: u32 = 0x0100_0000;

/// The fixed-size descriptor that precedes every payload.
#[derive(Debug, Clone, Copy, PartialEq, Eq, Structural)]
pub struct IPCHeader {
    /// Caller-chosen message tag; carried through unchanged.
    pub kind: u32,
    /// Length, in bytes, of the payload that follows the header.
    pub size: u32,
}

/// A malformed message.
#[derive(Debug, PartialEq, Eq, Clone, Copy)]
pub enum MessageError {
    /// The header declares a payload larger than `MAX_PAYLOAD_SIZE`.
    OversizedPayload,
}

/// The four little-endian bytes of a 32-bit value.
pub open spec fn spec_u32_le(x: u32) -> Seq<u8> {
    seq![
        (x & 0xff) as u8,
        ((x >> 8) & 0xff) as u8,
        ((x >> 16) & 0xff) as u8,
        ((x >> 24) & 0xff) as u8,
    ]
}

/// The 32-bit value read from four little-endian bytes.
pub open spec fn spec_u32_from_le(b: Seq<u8>) -> u32
    recommends
        b.len() == 4,
{
    (b[0] as u32) | ((b[1] as u32) << 8) | ((b[2] as u32) << 16) | ((b[3] as u32) << 24)
}

/// The encoded form of a header: kind, then size, each little-endian.
pub open spec fn spec_encode_header(h: IPCHeader) -> Seq<u8> {
    spec_u32_le(h.kind) + spec_u32_le(h.size)
}

/// The header read back from its 8-byte encoded form.
pub open spec fn spec_decode_header(b: Seq<u8>) -> IPCHeader
    recommends
        b.len() == 8,
{
    IPCHeader {
        kind: spec_u32_from_le(b.subrange(0, 4)),
        size: spec_u32_from_le(b.subrange(4, 8)),
    }
}

/// The whole frame a message travels as: encoded header, then payload.
pub open spec fn spec_frame(h: IPCHeader, payload: Seq<u8>) -> Seq<u8> {
    spec_encode_header(h) + payload
}

proof fn lemma_u32_le_round_trip(x: u32)
    ensures
        spec_u32_le(x).len() == 4,
        spec_u32_from_le(spec_u32_le(x)) == x,
{
    assert(((x & 0xff) as u8 as u32) | ((((x >> 8) & 0xff) as u8 as u32) << 8)
        | ((((x >> 16) & 0xff) as u8 as u32) << 16) | ((((x >> 24) & 0xff) as u8 as u32) << 24)
        == x) by (bit_vector);
}

/// Law: decoding an encoded header yields the header back, unchanged.
pub proof fn lemma_header_round_trip(h: IPCHeader)
    ensures
        spec_encode_header(h).len() == 8,
        spec_decode_header(spec_encode_header(h)) == h,
{
    lemma_u32_le_round_trip(h.kind);
    lemma_u32_le_round_trip(h.size);
    assert(spec_encode_header(h).subrange(0, 4) =~= spec_u32_le(h.kind));
    assert(spec_encode_header(h).subrange(4, 8) =~= spec_u32_le(h.size));
}

/// Law: a message frame is read back byte-exactly; the first 8 bytes decode
/// to the header that was framed and the rest is the payload that was framed,
/// unchanged.
pub proof fn lemma_frame_round_trip(h: IPCHeader, payload: Seq<u8>)
    ensures
        spec_frame(h, payload).len() == 8 + payload.len(),
        spec_decode_header(spec_frame(h, payload).subrange(0, 8)) == h,
        spec_frame(h, payload).subrange(8, spec_frame(h, payload).len() as int) == payload,
{
    lemma_header_round_trip(h);
    assert(spec_frame(h, payload).subrange(0, 8) =~= spec_encode_header(h));
    assert(spec_frame(h, payload).subrange(8, spec_frame(h, payload).len() as int) =~= payload);
}

proof fn lemma_masked_bytes_fit(x: u32)
    by (bit_vector)
    ensures
        x & 0xff <= 0xff,
        (x >> 8) & 0xff <= 0xff,
        (x >> 16) & 0xff <= 0xff,
        (x >> 24) & 0xff <= 0xff,
{
}

/// Serialize a header to its 8 little-endian bytes.
pub fn encode_header(h: &IPCHeader) -> (r: Vec<u8>)
    ensures
        r@ == spec_encode_header(*h),
{
    proof {
        lemma_masked_bytes_fit(h.kind);
        lemma_masked_bytes_fit(h.size);
    }
    let mut v: Vec<u8> = Vec::new();
    v.push((h.kind & 0xff) as u8);
    v.push(((h.kind >> 8) & 0xff) as u8);
    v.push(((h.kind >> 16) & 0xff) as u8);
    v.push(((h.kind >> 24) & 0xff) as u8);
    v.push((h.size & 0xff) as u8);
    v.push(((h.size >> 8) & 0xff) as u8);
    v.push(((h.size >> 16) & 0xff) as u8);
    v.push(((h.size >> 24) & 0xff) as u8);
    proof {
        assert(v@ =~= spec_encode_header(*h));
    }
    v
}

/// A received header is acceptable exactly when the payload length it
/// declares is within the cap; otherwise the message is malformed.
pub fn validate_header(h: &IPCHeader) -> (r: Result<(), MessageError>)
    ensures
        r == (if h.size <= MAX_PAYLOAD_SIZE {
            Ok::<(), MessageError>(())
        } else {
            Err::<(), MessageError>(MessageError::OversizedPayload)
        }),
{
    if h.size <= MAX_PAYLOAD_SIZE {
        Ok(())
    } else {
        Err(MessageError::OversizedPayload)
    }
}

/// Build the frame a message travels as: a header declaring `kind` and the
/// payload's true length, then the payload itself, byte for byte. Every byte
/// a connector hands to the kernel flows through this function.
pub fn frame_bytes(kind: u32, payload: &Vec<u8>) -> (r: Vec<u8>)
    requires
        payload@.len() <= MAX_PAYLOAD_SIZE as int,
    ensures
        r@ == spec_frame((IPCHeader { kind, size: payload@.len() as u32 }), payload@),
        r@.len() == HEADER_SIZE + payload@.len(),
{
    let header = IPCHeader { kind, size: payload.len() as u32 };
    proof {
        lemma_header_round_trip(header);
    }
    let mut r = encode_header(&header);
    proof {
        assert(r@ =~= spec_encode_header(header) + payload@.subrange(0, 0));
    }
    let mut i: usize = 0;
    while i < payload.len()
        invariant
            i <= payload@.len(),
            r@ == spec_encode_header((IPCHeader { kind, size: payload@.len() as u32 }))
                + payload@.subrange(0, i as int),
        decreases payload@.len() - i,
    {
        r.push(payload[i]);
        proof {
            assert(payload@.subrange(0, i + 1) =~= payload@.subrange(0, i as int).push(
                payload@[i as int],
            ));
            assert(r@ =~= spec_encode_header((IPCHeader { kind, size: payload@.len() as u32 }))
                + payload@.subrange(0, i + 1));
        }
        i = i + 1;
    }
    proof {
        assert(payload@.subrange(0, payload@.len() as int) =~= payload@);
    }
    r
}

/// Deserialize the 8 little-endian bytes of a header.
pub fn decode_header(bytes: &Vec<u8>) -> (r: IPCHeader)
    requires
        bytes@.len() == 8,
    ensures
        r == spec_decode_header(bytes@),
{
    let kind = (bytes[0] as u32) | ((bytes[1] as u32) << 8) | ((bytes[2] as u32) << 16)
        | ((bytes[3] as u32) << 24);
    let size = (bytes[4] as u32) | ((bytes[5] as u32) << 8) | ((bytes[6] as u32) << 16)
        | ((bytes[7] as u32) << 24);
    proof {
        assert(bytes@.subrange(0, 4)[0] == bytes@[0]);
        assert(bytes@.subrange(4, 8)[0] == bytes@[4]);
    }
    IPCHeader { kind, size }
}

} // verus!
