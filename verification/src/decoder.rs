//! The frame decoder: a persistent accumulation buffer over a byte stream.
//!
//! Bytes arrive in chunks of arbitrary size (short reads included) and are
//! appended to the buffer with [`FrameDecoder::feed`]. [`FrameDecoder::poll_frame`]
//! then takes one whole frame off the front of the buffer once enough bytes
//! have arrived, keeping any trailing bytes for the next frame. A stream whose
//! first six buffered bytes differ from the magic is refused as a protocol
//! desync; no resynchronization is attempted.

use vstd::prelude::*;

use crate::frame::{spec_le_u32, spec_magic};

verus! {

/// What one decode attempt yields on a given buffer: nothing yet, a protocol
/// desync, or one whole frame together with the bytes that follow it.
pub enum SpecStep {
    /// Too few bytes buffered for a whole frame; more input is needed.
    Pending,
    /// The buffer starts with six bytes other than the magic.
    Desync,
    /// A whole frame is buffered: its type code, its payload, and the trailing
    /// bytes that belong to later frames.
    Frame { msg_type: u32, payload: Seq<u8>, rest: Seq<u8> },
}

/// The decode attempt that a buffer holding `buf` permits.
pub open spec fn spec_step(buf: Seq<u8>) -> SpecStep {
    if buf.len() >= 6 && buf.subrange(0, 6) != spec_magic() {
        SpecStep::Desync
    } else if buf.len() < 14 {
        SpecStep::Pending
    } else {
        let plen = spec_le_u32(buf.subrange(6, 10)) as int;
        if buf.len() < 14 + plen {
            SpecStep::Pending
        } else {
            SpecStep::Frame {
                msg_type: spec_le_u32(buf.subrange(10, 14)),
                payload: buf.subrange(14, 14 + plen),
                rest: buf.subrange(14 + plen, buf.len() as int),
            }
        }
    }
}

/// How leftover bytes are classified when the peer closes the stream.
#[derive(PartialEq, Eq, Structural, Debug, Clone, Copy)]
pub enum EofStatus {
    /// No bytes pending: a clean end of stream.
    Clean,
    /// The buffered prefix already disagrees with the magic.
    Desync,
    /// The stream closed with a partial header or payload buffered.
    Incomplete,
}

/// The classification of a buffer holding `buf` at end of stream.
pub open spec fn spec_eof(buf: Seq<u8>) -> EofStatus {
    if buf.len() == 0 {
        EofStatus::Clean
    } else if buf.len() >= 6 && buf.subrange(0, 6) != spec_magic() {
        EofStatus::Desync
    } else {
        EofStatus::Incomplete
    }
}

/// One whole frame taken off the wire, its payload still raw bytes.
#[derive(Debug)]
pub struct RawFrame {
    /// The message-type code from the header; the mapping to a symbolic
    /// command or event kind is the caller's.
    pub msg_type: u32,
    /// Exactly the `payload_len` bytes that followed the header.
    pub payload: Vec<u8>,
}

/// The result of one decode attempt.
#[derive(Debug)]
pub enum PollFrame {
    /// More bytes are needed; nothing was consumed.
    Pending,
    /// The stream does not begin with the magic: fatal, the connection must
    /// be discarded.
    Desync,
    /// One whole frame, removed from the buffer.
    Ready(RawFrame),
}

/// Accumulates stream bytes and splits them into frames.
#[derive(Debug)]
pub struct FrameDecoder {
    buf: Vec<u8>,
}

impl View for FrameDecoder {
    type V = Seq<u8>;

    /// A decoder is abstractly the bytes it has buffered and not yet consumed.
    closed spec fn view(&self) -> Seq<u8> {
        self.buf@
    }
}

impl FrameDecoder {
    /// A decoder with nothing buffered.
    pub fn new() -> (r: FrameDecoder)
        ensures
            r@ == Seq::<u8>::empty(),
    {
        FrameDecoder { buf: Vec::new() }
    }

    /// Appends one chunk of stream bytes, however short, to the buffer.
    /// The decoder's state is a function of the concatenation of everything
    /// fed so far, so chunk boundaries cannot change what is decoded.
    pub fn feed(&mut self, chunk: &[u8])
        ensures
            final(self)@ == old(self)@ + chunk@,
    {
        let mut i: usize = 0;
        while i < chunk.len()
            invariant
                i <= chunk@.len(),
                self.buf@ == old(self)@ + chunk@.subrange(0, i as int),
            decreases chunk@.len() - i,
        {
            self.buf.push(*vstd::slice::slice_index_get(chunk, i));
            proof {
                assert(old(self)@ + chunk@.subrange(0, i as int + 1) =~= (old(self)@
                    + chunk@.subrange(0, i as int)).push(chunk@[i as int]));
            }
            i += 1;
        }
        proof {
            assert(chunk@.subrange(0, chunk@.len() as int) =~= chunk@);
        }
    }

    /// Attempts to take one frame off the front of the buffer. Returns
    /// `Pending` (buffer untouched) until a full header and payload have
    /// arrived, `Desync` (buffer untouched) if the first six bytes are not
    /// the magic, and otherwise the frame, leaving exactly the trailing
    /// bytes buffered.
    pub fn poll_frame(&mut self) -> (r: PollFrame)
        ensures
            match spec_step(old(self)@) {
                SpecStep::Pending => r is Pending && final(self)@ == old(self)@,
                SpecStep::Desync => r is Desync && final(self)@ == old(self)@,
                SpecStep::Frame { msg_type, payload, rest } => {
                    &&& r matches PollFrame::Ready(f)
                    &&& f.msg_type == msg_type
                    &&& f.payload@ == payload
                    &&& final(self)@ == rest
                },
            },
    {
        let n = self.buf.len();
        if n >= 6 && !magic_matches(&self.buf) {
            return PollFrame::Desync;
        }
        if n < 14 {
            return PollFrame::Pending;
        }
        let plen32 = crate::frame::read_u32_le(&self.buf, 6);
        let plen = plen32 as usize;
        if n - 14 < plen {
            return PollFrame::Pending;
        }
        let msg_type = crate::frame::read_u32_le(&self.buf, 10);
        let mut tail = self.buf.split_off(14);
        let rest = tail.split_off(plen);
        self.buf = rest;
        proof {
            let b = old(self)@;
            assert(b.subrange(14, b.len() as int).subrange(0, plen as int) =~= b.subrange(
                14,
                14 + plen as int,
            ));
            assert(b.subrange(14, b.len() as int).subrange(
                plen as int,
                b.len() as int - 14,
            ) =~= b.subrange(14 + plen as int, b.len() as int));
        }
        PollFrame::Ready(RawFrame { msg_type, payload: tail })
    }

    /// Classifies the stream once the peer has closed it: a clean end when
    /// nothing is buffered, a desync when the buffered prefix already
    /// disagrees with the magic, and an incomplete frame otherwise. Meant to
    /// be consulted after `poll_frame` reports `Pending` and no further bytes
    /// will arrive.
    pub fn finish(&self) -> (r: EofStatus)
        ensures
            r == spec_eof(self@),
    {
        let n = self.buf.len();
        if n == 0 {
            EofStatus::Clean
        } else if n >= 6 && !magic_matches(&self.buf) {
            EofStatus::Desync
        } else {
            EofStatus::Incomplete
        }
    }
}

/// Whether the first six buffered bytes are exactly the magic.
fn magic_matches(buf: &Vec<u8>) -> (r: bool)
    requires
        buf@.len() >= 6,
    ensures
        r == (buf@.subrange(0, 6) == spec_magic()),
{
    let r = buf[0] == 105 && buf[1] == 51 && buf[2] == 45 && buf[3] == 105 && buf[4] == 112
        && buf[5] == 99;
    proof {
        let s = buf@.subrange(0, 6);
        assert(s[0] == buf@[0] && s[1] == buf@[1] && s[2] == buf@[2] && s[3] == buf@[3] && s[4]
            == buf@[4] && s[5] == buf@[5]);
        if r {
            assert(s =~= spec_magic());
        } else {
            assert(s != spec_magic());
        }
    }
    r
}

} // verus!
