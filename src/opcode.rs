//! The framed binary protocol: request decoding and response encoding.
//! All integers are big-endian.

use vstd::prelude::*;
use vstd::utf8::*;
use crate::jobs::{carries_signature, opcode_byte, opcode_of, JobOpcode};
use crate::player::FetchUpdateStatus;

verus! {

broadcast use vstd::utf8::group_utf8_lib;

/// Two bytes, most significant first.
pub open spec fn be16(v: u16) -> Seq<u8> {
    seq![(v >> 8u16) as u8, v as u8]
}

/// Four bytes, most significant first.
pub open spec fn be32(v: u32) -> Seq<u8> {
    seq![(v >> 24u32) as u8, (v >> 16u32) as u8, (v >> 8u32) as u8, v as u8]
}

/// Eight bytes, most significant first.
pub open spec fn be64(v: u64) -> Seq<u8> {
    seq![
        (v >> 56u64) as u8,
        (v >> 48u64) as u8,
        (v >> 40u64) as u8,
        (v >> 32u64) as u8,
        (v >> 24u64) as u8,
        (v >> 16u64) as u8,
        (v >> 8u64) as u8,
        v as u8,
    ]
}

/// The number that two bytes encode, most significant first.
pub open spec fn be16_value(b0: u8, b1: u8) -> u16 {
    ((b0 as u16) << 8u16) | (b1 as u16)
}

/// The number that four bytes encode, most significant first.
pub open spec fn be32_value(b: Seq<u8>) -> u32 {
    ((b[0] as u32) << 24u32) | ((b[1] as u32) << 16u32) | ((b[2] as u32) << 8u32) | (b[3] as u32)
}

pub proof fn lemma_be16_round_trip(v: u16)
    ensures
        be16_value(be16(v)[0], be16(v)[1]) == v,
{
    assert((((((v >> 8u16) as u8) as u16) << 8u16) | ((v as u8) as u16)) == v) by (bit_vector);
}

pub proof fn lemma_be32_round_trip(v: u32)
    ensures
        be32_value(be32(v)) == v,
{
    assert((((((v >> 24u32) as u8) as u32) << 24u32) | ((((v >> 16u32) as u8) as u32) << 16u32)
        | ((((v >> 8u32) as u8) as u32) << 8u32) | ((v as u8) as u32)) == v) by (bit_vector);
}

/// A decoded request frame.
pub struct Opcode {
    pub opcode: JobOpcode,
    pub request_id: u32,
    pub signature: String,
}

/// Why a frame could not be decoded.
#[derive(Clone, Copy, Debug, PartialEq, Eq, Structural)]
pub enum FrameError {
    /// The opcode byte names no known operation.
    UnknownOpcode,
    /// The signature bytes are not UTF-8.
    InvalidUtf8,
}

/// What the bytes at the head of a buffer hold.
pub enum Decoded {
    /// Fewer bytes than the frame needs.
    NeedMore,
    /// A complete frame, and how many bytes it spans.
    Frame { opcode: JobOpcode, request_id: u32, signature: Seq<char>, len: nat },
    /// Bytes that no frame can start with.
    Invalid(FrameError),
}

/// The decoding of the head of `b`.
pub open spec fn decode_frame(b: Seq<u8>) -> Decoded {
    if b.len() < 5 {
        Decoded::NeedMore
    } else {
        let op = opcode_of(b[0]);
        let rid = be32_value(b.subrange(1, 5));
        if op == JobOpcode::UnknownOpcode {
            Decoded::Invalid(FrameError::UnknownOpcode)
        } else if !carries_signature(op) {
            Decoded::Frame { opcode: op, request_id: rid, signature: Seq::empty(), len: 5 }
        } else if b.len() < 7 {
            Decoded::NeedMore
        } else {
            let n = be16_value(b[5], b[6]) as int;
            if b.len() < 7 + n {
                Decoded::NeedMore
            } else if !valid_utf8(b.subrange(7, 7 + n)) {
                Decoded::Invalid(FrameError::InvalidUtf8)
            } else {
                Decoded::Frame {
                    opcode: op,
                    request_id: rid,
                    signature: decode_utf8(b.subrange(7, 7 + n)),
                    len: (7 + n) as nat,
                }
            }
        }
    }
}

/// The request frame for an opcode, a request id and a signature.
pub open spec fn request_frame(op: JobOpcode, request_id: u32, signature: Seq<char>) -> Seq<u8> {
    let head = seq![opcode_byte(op)] + be32(request_id);
    if carries_signature(op) {
        head + be16(encode_utf8(signature).len() as u16) + encode_utf8(signature)
    } else {
        head
    }
}

/// Relies on `String::from_utf8`: it accepts exactly the valid UTF-8 byte
/// sequences, and the string it returns holds the characters they encode.
#[verifier::external_body]
fn string_from_utf8(bytes: Vec<u8>) -> (r: Option<String>)
    ensures
        r is Some <==> valid_utf8(bytes@),
        r is Some ==> r->0@ == decode_utf8(bytes@),
{
    String::from_utf8(bytes).ok()
}

fn put_u16(dst: &mut Vec<u8>, v: u16)
    ensures
        final(dst)@ == old(dst)@ + be16(v),
{
    dst.push((v >> 8u16) as u8);
    dst.push(v as u8);
    assert(final(dst)@ =~= old(dst)@ + be16(v));
}

fn put_u32(dst: &mut Vec<u8>, v: u32)
    ensures
        final(dst)@ == old(dst)@ + be32(v),
{
    dst.push((v >> 24u32) as u8);
    dst.push((v >> 16u32) as u8);
    dst.push((v >> 8u32) as u8);
    dst.push(v as u8);
    assert(final(dst)@ =~= old(dst)@ + be32(v));
}

fn put_u64(dst: &mut Vec<u8>, v: u64)
    ensures
        final(dst)@ == old(dst)@ + be64(v),
{
    dst.push((v >> 56u64) as u8);
    dst.push((v >> 48u64) as u8);
    dst.push((v >> 40u64) as u8);
    dst.push((v >> 32u64) as u8);
    dst.push((v >> 24u64) as u8);
    dst.push((v >> 16u64) as u8);
    dst.push((v >> 8u64) as u8);
    dst.push(v as u8);
    assert(final(dst)@ =~= old(dst)@ + be64(v));
}

fn put_slice(dst: &mut Vec<u8>, b: &[u8])
    ensures
        final(dst)@ == old(dst)@ + b@,
{
    let mut i: usize = 0;
    while i < b.len()
        invariant
            i <= b@.len(),
            dst@ == old(dst)@ + b@.take(i as int),
        decreases b@.len() - i,
    {
        dst.push(b[i]);
        assert(b@.take(i as int + 1) =~= b@.take(i as int).push(b@[i as int]));
        i = i + 1;
    }
    assert(b@.take(b@.len() as int) =~= b@);
}


/// Whether `o` is the frame `(op, rid, sig)` spanning `len` bytes.
pub open spec fn is_frame(o: Option<(Opcode, usize)>, d: Decoded) -> bool {
    match (o, d) {
        (Some((x, n)), Decoded::Frame { opcode, request_id, signature, len }) => {
            x.opcode == opcode && x.request_id == request_id && x.signature@ == signature
                && n as nat == len
        },
        (None, Decoded::NeedMore) => true,
        _ => false,
    }
}

/// The streaming codec of the protocol.
#[derive(Clone, Copy)]
pub struct OpcodeDecoder {}

impl OpcodeDecoder {
    /// Decodes the frame at the head of `src`. `Ok(None)` asks for more bytes;
    /// `Ok(Some((op, n)))` is a frame spanning the first `n` bytes.
    pub fn decode(&mut self, src: &[u8]) -> (r: Result<Option<(Opcode, usize)>, FrameError>)
        ensures
            match r {
                Ok(o) => is_frame(o, decode_frame(src@)),
                Err(e) => decode_frame(src@) == Decoded::Invalid(e),
            },
    {
        if src.len() < 5 {
            return Ok(None);
        }
        let opcode = JobOpcode::from(src[0]);
        let request_id: u32 = ((src[1] as u32) << 24u32) | ((src[2] as u32) << 16u32) | ((src[3] as u32)
            << 8u32) | (src[4] as u32);
        assert(src@.subrange(1, 5)[0] == src@[1]);
        assert(src@.subrange(1, 5)[1] == src@[2]);
        assert(src@.subrange(1, 5)[2] == src@[3]);
        assert(src@.subrange(1, 5)[3] == src@[4]);
        match opcode {
            JobOpcode::UnknownOpcode => Err(FrameError::UnknownOpcode),
            JobOpcode::ForceUpdate | JobOpcode::GetSignatureTimestamp | JobOpcode::PlayerStatus
            | JobOpcode::PlayerUpdateTimestamp => {
                Ok(Some((Opcode { opcode, request_id, signature: String::new() }, 5)))
            },
            JobOpcode::DecryptSignature | JobOpcode::DecryptNSignature => {
                if src.len() < 7 {
                    return Ok(None);
                }
                let sig_size: u16 = ((src[5] as u16) << 8u16) | (src[6] as u16);
                let end: usize = sig_size as usize + 7;
                if end > src.len() {
                    return Ok(None);
                }
                let mut bytes: Vec<u8> = Vec::new();
                let mut i: usize = 7;
                while i < end
                    invariant
                        7 <= i <= end <= src@.len(),
                        bytes@ == src@.subrange(7, i as int),
                    decreases end - i,
                {
                    bytes.push(src[i]);
                    assert(src@.subrange(7, i as int + 1) =~= src@.subrange(7, i as int).push(
                        src@[i as int],
                    ));
                    i = i + 1;
                }
                match string_from_utf8(bytes) {
                    Some(signature) => Ok(Some((Opcode { opcode, request_id, signature }, end))),
                    None => Err(FrameError::InvalidUtf8),
                }
            },
        }
    }

    /// Appends the frame of `item` to `dst`; an unknown opcode appends nothing.
    pub fn encode(&mut self, item: &OpcodeResponse, dst: &mut Vec<u8>)
        requires
            item.fits(),
        ensures
            final(dst)@ == old(dst)@ + response_frame(*item),
    {
        let ghost payload = response_payload(*item);
        match item.opcode {
            JobOpcode::UnknownOpcode => {
                assert(old(dst)@ + response_frame(*item) =~= old(dst)@);
                return;
            },
            _ => {},
        }
        put_u32(dst, item.request_id);
        match item.opcode {
            JobOpcode::ForceUpdate => {
                put_u32(dst, 2);
                let code: u16 = match item.update_status {
                    Ok(_) => 0xF44F,
                    Err(FetchUpdateStatus::PlayerAlreadyUpdated) => 0xFFFF,
                    Err(_) => 0x0000,
                };
                put_u16(dst, code);
            },
            JobOpcode::DecryptSignature | JobOpcode::DecryptNSignature => {
                let bytes = item.signature.as_str().as_bytes();
                let n = bytes.len();
                put_u32(dst, 2 + n as u32);
                put_u16(dst, n as u16);
                put_slice(dst, bytes);
            },
            JobOpcode::GetSignatureTimestamp => {
                put_u32(dst, 8);
                put_u64(dst, item.signature_timestamp);
            },
            JobOpcode::PlayerStatus => {
                put_u32(dst, 5);
                dst.push(item.has_player);
                put_u32(dst, item.player_id);
            },
            JobOpcode::PlayerUpdateTimestamp => {
                put_u32(dst, 8);
                put_u64(dst, item.last_player_update);
            },
            JobOpcode::UnknownOpcode => {},
        }
        assert(final(dst)@ =~= old(dst)@ + response_frame(*item));
    }
}

/// Appends the request frame of `op` to `dst` (the client's side of the protocol).
pub fn encode_request(op: &Opcode, dst: &mut Vec<u8>)
    requires
        carries_signature(op.opcode) ==> encode_utf8(op.signature@).len() <= u16::MAX,
    ensures
        final(dst)@ == old(dst)@ + request_frame(op.opcode, op.request_id, op.signature@),
{
    dst.push(op.opcode.to_byte());
    put_u32(dst, op.request_id);
    match op.opcode {
        JobOpcode::DecryptSignature | JobOpcode::DecryptNSignature => {
            let bytes = op.signature.as_str().as_bytes();
            put_u16(dst, bytes.len() as u16);
            put_slice(dst, bytes);
        },
        _ => {},
    }
    assert(final(dst)@ =~= old(dst)@ + request_frame(op.opcode, op.request_id, op.signature@));
}

/// A response, before encoding; only the fields of its opcode are sent.
pub struct OpcodeResponse {
    pub opcode: JobOpcode,
    pub request_id: u32,
    pub update_status: Result<(), FetchUpdateStatus>,
    pub signature: String,
    pub signature_timestamp: u64,
    pub has_player: u8,
    pub player_id: u32,
    pub last_player_update: u64,
}

/// The status code that answers a forced update.
pub open spec fn status_code(s: Result<(), FetchUpdateStatus>) -> u16 {
    match s {
        Ok(_) => 0xF44F,
        Err(FetchUpdateStatus::PlayerAlreadyUpdated) => 0xFFFF,
        Err(_) => 0x0000,
    }
}

/// The payload of a response frame.
pub open spec fn response_payload(r: OpcodeResponse) -> Seq<u8> {
    match r.opcode {
        JobOpcode::ForceUpdate => be16(status_code(r.update_status)),
        JobOpcode::DecryptSignature | JobOpcode::DecryptNSignature => {
            let b = encode_utf8(r.signature@);
            be16(b.len() as u16) + b
        },
        JobOpcode::GetSignatureTimestamp => be64(r.signature_timestamp),
        JobOpcode::PlayerStatus => seq![r.has_player] + be32(r.player_id),
        JobOpcode::PlayerUpdateTimestamp => be64(r.last_player_update),
        JobOpcode::UnknownOpcode => Seq::empty(),
    }
}

/// The bytes sent for a response: request id, payload length, payload;
/// nothing at all for an unknown opcode.
pub open spec fn response_frame(r: OpcodeResponse) -> Seq<u8> {
    if r.opcode == JobOpcode::UnknownOpcode {
        Seq::empty()
    } else {
        let p = response_payload(r);
        be32(r.request_id) + be32(p.len() as u32) + p
    }
}

impl OpcodeResponse {
    /// The signature fits the two-byte length of its frame.
    pub open spec fn fits(&self) -> bool {
        encode_utf8(self.signature@).len() <= u16::MAX
    }

    /// A response to `opcode` for `request_id`, with every value field empty.
    pub fn new(opcode: JobOpcode, request_id: u32) -> (r: OpcodeResponse)
        ensures
            r.opcode == opcode,
            r.request_id == request_id,
            r.update_status == Ok::<(), FetchUpdateStatus>(()),
            r.signature@.len() == 0,
            r.signature_timestamp == 0,
            r.has_player == 0,
            r.player_id == 0,
            r.last_player_update == 0,
            r.fits(),
    {
        OpcodeResponse {
            opcode,
            request_id,
            update_status: Ok(()),
            signature: String::new(),
            signature_timestamp: 0,
            has_player: 0,
            player_id: 0,
            last_player_update: 0,
        }
    }
}


proof fn lemma_opcode_byte_round_trip(op: JobOpcode)
    ensures
        op != JobOpcode::UnknownOpcode ==> opcode_of(opcode_byte(op)) == op,
{
}

/// Every response frame states in its length field exactly the number of
/// payload bytes that follow it.
pub proof fn lemma_payload_length(r: OpcodeResponse)
    requires
        r.fits(),
        r.opcode != JobOpcode::UnknownOpcode,
    ensures
        response_frame(r).len() >= 8,
        be32_value(response_frame(r).subrange(4, 8)) == response_frame(r).len() - 8,
{
    let p = response_payload(r);
    let f = response_frame(r);
    assert(p.len() <= 2 + u16::MAX);
    assert(f.subrange(4, 8) =~= be32(p.len() as u32));
    lemma_be32_round_trip(p.len() as u32);
}

/// Every response frame begins with the request id of the response.
pub proof fn lemma_frame_carries_request_id(r: OpcodeResponse)
    requires
        r.opcode != JobOpcode::UnknownOpcode,
    ensures
        response_frame(r).len() >= 4,
        be32_value(response_frame(r).subrange(0, 4)) == r.request_id,
{
    let f = response_frame(r);
    assert(f.subrange(0, 4) =~= be32(r.request_id));
    lemma_be32_round_trip(r.request_id);
}

/// Decoding an encoded request, whatever bytes follow it, gives back its
/// opcode, its request id and (for the decrypt opcodes) its signature,
/// and consumes exactly the frame.
pub proof fn lemma_request_round_trip(op: JobOpcode, request_id: u32, signature: Seq<char>, rest: Seq<u8>)
    requires
        op != JobOpcode::UnknownOpcode,
        carries_signature(op) ==> encode_utf8(signature).len() <= u16::MAX,
    ensures
        decode_frame(request_frame(op, request_id, signature) + rest) == (Decoded::Frame {
            opcode: op,
            request_id,
            signature: if carries_signature(op) { signature } else { Seq::empty() },
            len: request_frame(op, request_id, signature).len(),
        }),
{
    let f = request_frame(op, request_id, signature);
    let b = f + rest;
    lemma_opcode_byte_round_trip(op);
    assert(b.subrange(1, 5) =~= be32(request_id));
    lemma_be32_round_trip(request_id);
    if carries_signature(op) {
        let e = encode_utf8(signature);
        let n = e.len() as u16;
        lemma_be16_round_trip(n);
        assert(b[5] == be16(n)[0] && b[6] == be16(n)[1]);
        assert(b.subrange(7, 7 + e.len() as int) =~= e);
        encode_utf8_valid_utf8(signature);
        encode_utf8_decode_utf8(signature);
    }
}

/// A decoder shown any proper prefix of a request frame asks for more bytes
/// rather than failing.
pub proof fn lemma_truncated_frame_needs_more(op: JobOpcode, request_id: u32, signature: Seq<char>, k: int)
    requires
        op != JobOpcode::UnknownOpcode,
        carries_signature(op) ==> encode_utf8(signature).len() <= u16::MAX,
        0 <= k < request_frame(op, request_id, signature).len(),
    ensures
        decode_frame(request_frame(op, request_id, signature).take(k)) == Decoded::NeedMore,
{
    let f = request_frame(op, request_id, signature);
    let b = f.take(k);
    lemma_opcode_byte_round_trip(op);
    if k >= 5 {
        assert(b[0] == opcode_byte(op));
        assert(carries_signature(op));
        if k >= 7 {
            let e = encode_utf8(signature);
            let n = e.len() as u16;
            lemma_be16_round_trip(n);
            assert(b[5] == be16(n)[0] && b[6] == be16(n)[1]);
        }
    }
}

} // verus!
