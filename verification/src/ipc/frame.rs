//! The Discord IPC frame: a little-endian opcode and payload length, each four
//! bytes, followed by the payload's UTF-8 bytes.
use vstd::prelude::*;
use vstd::utf8::*;
use vstd::string::*;

verus! {

pub const OP_HANDSHAKE: u32 = 0;
pub const OP_FRAME: u32 = 1;
pub const OP_CLOSE: u32 = 2;

/// Number of bytes in a frame header.
pub const HEADER_LEN: usize = 8;

/// The four little-endian bytes of `x`.
pub open spec fn le_bytes(x: u32) -> Seq<u8> {
    seq![
        (x & 0xFFu32) as u8,
        ((x >> 8u32) & 0xFFu32) as u8,
        ((x >> 16u32) & 0xFFu32) as u8,
        ((x >> 24u32) & 0xFFu32) as u8,
    ]
}

/// The number whose little-endian bytes are `b0 b1 b2 b3`.
pub open spec fn le_value(b0: u8, b1: u8, b2: u8, b3: u8) -> u32 {
    (b0 as u32) | ((b1 as u32) << 8u32) | ((b2 as u32) << 16u32) | ((b3 as u32) << 24u32)
}

/// The bytes sent for a frame with the given opcode and payload text. The
/// length field holds the payload's byte count modulo 2^32.
pub open spec fn spec_frame(opcode: u32, payload: Seq<char>) -> Seq<u8> {
    let body = encode_utf8(payload);
    le_bytes(opcode) + le_bytes(body.len() as u32) + body
}

/// The (opcode, payload length) that a header holds.
pub open spec fn spec_header(h: Seq<u8>) -> (u32, u32) {
    (le_value(h[0], h[1], h[2], h[3]), le_value(h[4], h[5], h[6], h[7]))
}

fn push_le(out: &mut Vec<u8>, x: u32)
    ensures
        final(out)@ == old(out)@ + le_bytes(x),
{
    out.push((x & 0xFFu32) as u8);
    out.push(((x >> 8u32) & 0xFFu32) as u8);
    out.push(((x >> 16u32) & 0xFFu32) as u8);
    out.push(((x >> 24u32) & 0xFFu32) as u8);
}

/// The bytes to write for one frame (the first half of `ipc_write`).
pub fn encode_frame(opcode: u32, payload: &str) -> (bytes: Vec<u8>)
    ensures
        bytes@ == spec_frame(opcode, payload@),
{
    let body = payload.as_bytes();
    let len = body.len() as u32;
    let mut out: Vec<u8> = Vec::new();
    push_le(&mut out, opcode);
    push_le(&mut out, len);
    let mut i: usize = 0;
    let ghost start = out@;
    while i < body.len()
        invariant
            i <= body@.len(),
            body@ == payload.spec_bytes(),
            out@ == start + body@.take(i as int),
        decreases body.len() - i,
    {
        out.push(body[i]);
        assert(body@.take(i + 1) == body@.take(i as int).push(body@[i as int]));
        i = i + 1;
    }
    assert(body@.take(body@.len() as int) == body@);
    out
}

/// Reads the opcode and the payload length from a frame header (the first
/// half of `ipc_read`).
pub fn decode_header(header: &[u8]) -> (r: (u32, u32))
    requires
        header@.len() == HEADER_LEN,
    ensures
        r == spec_header(header@),
{
    let op = (header[0] as u32) | ((header[1] as u32) << 8u32) | ((header[2] as u32) << 16u32) | ((
    header[3] as u32) << 24u32);
    let len = (header[4] as u32) | ((header[5] as u32) << 8u32) | ((header[6] as u32) << 16u32) | ((
    header[7] as u32) << 24u32);
    (op, len)
}

/// `String::from_utf8` of std: the text whose UTF-8 encoding is `bytes`, or
/// an error when `bytes` is not valid UTF-8.
#[verifier::external_body]
fn string_from_utf8(bytes: Vec<u8>) -> (r: Option<String>)
    ensures
        r is Some <==> valid_utf8(bytes@),
        r matches Some(s) ==> encode_utf8(s@) == bytes@,
{
    String::from_utf8(bytes).ok()
}

/// Reads the payload of a frame as text (the second half of `ipc_read`); a
/// payload that is not UTF-8 is refused.
pub fn decode_payload(bytes: Vec<u8>) -> (r: Option<String>)
    ensures
        r is Some <==> valid_utf8(bytes@),
        r matches Some(s) ==> s@ == decode_utf8(bytes@),
{
    let ghost b = bytes@;
    let r = string_from_utf8(bytes);
    proof {
        if r is Some {
            encode_utf8_decode_utf8(r->0@);
        }
    }
    r
}

proof fn lemma_le_roundtrip(x: u32)
    ensures
        le_value(le_bytes(x)[0], le_bytes(x)[1], le_bytes(x)[2], le_bytes(x)[3]) == x,
{
    let b0 = (x & 0xFFu32) as u8;
    let b1 = ((x >> 8u32) & 0xFFu32) as u8;
    let b2 = ((x >> 16u32) & 0xFFu32) as u8;
    let b3 = ((x >> 24u32) & 0xFFu32) as u8;
    assert((b0 as u32) | ((b1 as u32) << 8u32) | ((b2 as u32) << 16u32) | ((b3 as u32) << 24u32)
        == x) by (bit_vector)
        requires
            b0 == (x & 0xFFu32) as u8,
            b1 == ((x >> 8u32) & 0xFFu32) as u8,
            b2 == ((x >> 16u32) & 0xFFu32) as u8,
            b3 == ((x >> 24u32) & 0xFFu32) as u8,
    ;
}

/// Reading a written frame gives back its opcode and its payload text, when
/// the payload has fewer than 2^32 bytes.
pub proof fn lemma_frame_roundtrip(opcode: u32, payload: Seq<char>)
    requires
        encode_utf8(payload).len() <= u32::MAX,
    ensures
        ({
            let f = spec_frame(opcode, payload);
            let (op, len) = spec_header(f.take(8));
            &&& op == opcode
            &&& len == encode_utf8(payload).len()
            &&& f.len() == 8 + len
            &&& valid_utf8(f.skip(8))
            &&& decode_utf8(f.skip(8)) == payload
        }),
{
    let body = encode_utf8(payload);
    let f = spec_frame(opcode, payload);
    lemma_le_roundtrip(opcode);
    lemma_le_roundtrip(body.len() as u32);
    assert(f.take(8) == le_bytes(opcode) + le_bytes(body.len() as u32));
    assert(f.skip(8) == body);
    encode_utf8_valid_utf8(payload);
    encode_utf8_decode_utf8(payload);
}

} // verus!
