//! Laws relating the encoder and the decoder.
//!
//! These proofs tie [`crate::frame::spec_frame`] (what the encoder emits) to
//! [`crate::decoder::spec_step`] (what the decoder yields), so that everything
//! the decoder's contract promises of a buffer carries over to buffers that
//! hold encoded frames.

use vstd::prelude::*;

use crate::decoder::{spec_eof, spec_step, EofStatus, SpecStep};
use crate::frame::{lemma_le_round_trip, spec_frame, spec_le_u32, spec_magic, spec_u32_le};

verus! {

/// Law: a buffer holding one encoded frame followed by any trailing bytes
/// decodes to exactly that frame's message type and payload, with exactly
/// the trailing bytes left over — no byte lost or duplicated.
pub proof fn lemma_frame_decodes(msg_type: u32, payload: Seq<u8>, rest: Seq<u8>)
    requires
        payload.len() <= u32::MAX,
    ensures
        spec_step(spec_frame(msg_type, payload) + rest) == (SpecStep::Frame {
            msg_type,
            payload,
            rest,
        }),
{
    let plen32 = payload.len() as u32;
    let s = spec_frame(msg_type, payload) + rest;
    assert(s.len() == 14 + payload.len() + rest.len());
    assert(s.subrange(0, 6) =~= spec_magic());
    assert(s.subrange(6, 10) =~= spec_u32_le(plen32));
    assert(s.subrange(10, 14) =~= spec_u32_le(msg_type));
    lemma_le_round_trip(plen32);
    lemma_le_round_trip(msg_type);
    assert(spec_le_u32(s.subrange(6, 10)) == payload.len());
    assert(spec_le_u32(s.subrange(10, 14)) == msg_type);
    assert(s.subrange(14, 14 + payload.len() as int) =~= payload);
    assert(s.subrange(14 + payload.len() as int, s.len() as int) =~= rest);
}

/// Law: encoding and decoding round-trip. The encoded frame is exactly
/// 14 bytes longer than the payload, and decoding it yields the same message
/// type and the same payload (so in particular the decoder reconstructs the
/// payload length exactly), with nothing left over.
pub proof fn lemma_round_trip(msg_type: u32, payload: Seq<u8>)
    requires
        payload.len() <= u32::MAX,
    ensures
        spec_frame(msg_type, payload).len() == 14 + payload.len(),
        spec_step(spec_frame(msg_type, payload)) == (SpecStep::Frame {
            msg_type,
            payload,
            rest: Seq::<u8>::empty(),
        }),
{
    lemma_frame_decodes(msg_type, payload, Seq::<u8>::empty());
    assert(spec_frame(msg_type, payload) + Seq::<u8>::empty() =~= spec_frame(msg_type, payload));
}

/// Law: splitting a byte stream at any boundary and feeding the parts one
/// after the other leaves the decoder with the same buffered bytes as feeding
/// the stream whole — `FrameDecoder::feed` guarantees the buffer is the
/// concatenation of everything fed, and that concatenation does not depend on
/// where the stream was cut — so every decode attempt, and the classification
/// at end of stream, is the same either way. Splits into more than two chunks
/// follow by applying the law to each boundary in turn.
pub proof fn lemma_split_feed(s: Seq<u8>, i: int)
    requires
        0 <= i <= s.len(),
    ensures
        s.subrange(0, i) + s.subrange(i, s.len() as int) == s,
        spec_step(s.subrange(0, i) + s.subrange(i, s.len() as int)) == spec_step(s),
        spec_eof(s.subrange(0, i) + s.subrange(i, s.len() as int)) == spec_eof(s),
{
    assert(s.subrange(0, i) + s.subrange(i, s.len() as int) =~= s);
}

/// Law: a stream whose first six bytes are anything but the magic is refused
/// as a protocol desync, whatever follows them: the decoder never interprets
/// the later bytes as a length, a type code or a payload.
pub proof fn lemma_magic_mismatch(s: Seq<u8>)
    requires
        s.len() >= 6,
        s.subrange(0, 6) != spec_magic(),
    ensures
        spec_step(s) == SpecStep::Desync,
        spec_eof(s) == EofStatus::Desync,
{
}

/// Law: a stream that closes before a whole 14-byte header has arrived, its
/// bytes so far consistent with the magic, decodes to nothing (never to a
/// frame) and is classified as an incomplete frame at end of stream — not as
/// a clean end.
pub proof fn lemma_short_close_incomplete(s: Seq<u8>)
    requires
        0 < s.len() < 14,
        s.len() >= 6 ==> s.subrange(0, 6) == spec_magic(),
    ensures
        spec_step(s) == SpecStep::Pending,
        spec_eof(s) == EofStatus::Incomplete,
{
}

/// Law: two frames delivered back to back decode in order: the first decode
/// yields the first frame and leaves exactly the second frame's bytes
/// buffered, and the next decode yields the second frame and leaves nothing.
pub proof fn lemma_two_frames(t1: u32, p1: Seq<u8>, t2: u32, p2: Seq<u8>)
    requires
        p1.len() <= u32::MAX,
        p2.len() <= u32::MAX,
    ensures
        spec_step(spec_frame(t1, p1) + spec_frame(t2, p2)) == (SpecStep::Frame {
            msg_type: t1,
            payload: p1,
            rest: spec_frame(t2, p2),
        }),
        spec_step(spec_frame(t2, p2)) == (SpecStep::Frame {
            msg_type: t2,
            payload: p2,
            rest: Seq::<u8>::empty(),
        }),
{
    lemma_frame_decodes(t1, p1, spec_frame(t2, p2));
    lemma_round_trip(t2, p2);
}

} // verus!
