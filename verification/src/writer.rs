//! The resumable frame writer.
//!
//! A non-blocking stream may accept fewer bytes than offered (a short write).
//! A [`FrameWriter`] owns one encoded frame and a cursor over it: the caller
//! offers [`FrameWriter::pending`] to the stream, records how many bytes the
//! stream accepted with [`FrameWriter::advance`], and repeats until
//! [`FrameWriter::is_done`]. Only then has the whole frame been transferred;
//! no partial count is ever reported as success.

use vstd::prelude::*;

use crate::frame::{encode_frame, spec_frame};

verus! {

/// One encoded outgoing frame and how much of it the stream has accepted.
#[derive(Debug)]
pub struct FrameWriter {
    buf: Vec<u8>,
    written: usize,
}

impl FrameWriter {
    /// The whole encoded frame being written.
    pub closed spec fn spec_frame_bytes(&self) -> Seq<u8> {
        self.buf@
    }

    /// How many of the frame's bytes the stream has accepted so far.
    pub closed spec fn spec_written(&self) -> int {
        self.written as int
    }

    /// The cursor never runs past the end of the frame.
    pub open spec fn wf(&self) -> bool {
        self.spec_written() <= self.spec_frame_bytes().len()
    }

    /// Frames a message and starts a write with nothing yet accepted.
    pub fn new(msg_type: u32, payload: &[u8]) -> (r: FrameWriter)
        requires
            payload@.len() <= u32::MAX,
        ensures
            r.wf(),
            r.spec_frame_bytes() == spec_frame(msg_type, payload@),
            r.spec_frame_bytes().len() == 14 + payload@.len(),
            r.spec_written() == 0,
    {
        FrameWriter { buf: encode_frame(msg_type, payload), written: 0 }
    }

    /// The unwritten tail of the frame: what should be offered to the stream
    /// next.
    pub fn pending(&self) -> (r: &[u8])
        requires
            self.wf(),
        ensures
            r@ == self.spec_frame_bytes().subrange(
                self.spec_written(),
                self.spec_frame_bytes().len() as int,
            ),
    {
        vstd::slice::slice_subrange(self.buf.as_slice(), self.written, self.buf.len())
    }

    /// Records that the stream accepted `n` more bytes of the pending tail.
    pub fn advance(&mut self, n: usize)
        requires
            old(self).wf(),
            n <= old(self).spec_frame_bytes().len() - old(self).spec_written(),
        ensures
            final(self).wf(),
            final(self).spec_frame_bytes() == old(self).spec_frame_bytes(),
            final(self).spec_written() == old(self).spec_written() + n,
    {
        // witnesses that the frame's length, and so the new cursor, fits in usize
        let _len = self.buf.len();
        self.written = self.written + n;
    }

    /// Whether every byte of the frame has been accepted by the stream.
    pub fn is_done(&self) -> (r: bool)
        ensures
            r == (self.spec_written() == self.spec_frame_bytes().len()),
    {
        self.written == self.buf.len()
    }

    /// The total frame length: the byte count a completed send reports.
    pub fn len(&self) -> (r: usize)
        ensures
            r == self.spec_frame_bytes().len(),
    {
        self.buf.len()
    }
}

} // verus!
