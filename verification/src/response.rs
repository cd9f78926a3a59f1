//! Typed responses: a decoded frame whose payload has been parsed as JSON.
//!
//! The payload of a well-framed message is a JSON document. Parsing it can
//! fail without disturbing the framing — the frame boundary was already
//! identified — so a payload error is recoverable: the connection stays
//! usable for the next frame, unlike a desync or a truncated stream.

use vstd::prelude::*;

use crate::decoder::{spec_step, EofStatus, FrameDecoder, PollFrame, RawFrame, SpecStep};

verus! {

#[verifier::external_type_specification]
#[verifier::external_body]
pub struct ExJsonValue(serde_json::Value);

#[verifier::external_type_specification]
#[verifier::external_body]
pub struct ExJsonError(serde_json::Error);

/// What the JSON parser yields for a byte sequence: the document it holds,
/// or nothing when the bytes are not one well-formed JSON document. The
/// result depends on the bytes alone.
pub uninterp spec fn spec_json_parse(bytes: Seq<u8>) -> Option<serde_json::Value>;

/// Relies on serde_json::from_slice: parses one JSON document from a byte
/// slice, deterministically in the bytes alone, and errs exactly when the
/// bytes are not such a document.
#[verifier::external_body]
fn parse_json(bytes: &[u8]) -> (r: Result<serde_json::Value, serde_json::Error>)
    ensures
        r matches Ok(v) ==> spec_json_parse(bytes@) == Some(v),
        r is Err ==> spec_json_parse(bytes@) is None,
{
    serde_json::from_slice(bytes)
}

/// Why a receive failed.
pub enum ClientError {
    /// The stream's first six bytes were not the magic: fatal, the
    /// connection must be discarded.
    Desync,
    /// The stream closed with a partial frame buffered: fatal, and distinct
    /// from a payload error — the peer hung up rather than sent garbage.
    Incomplete,
    /// The frame was well-formed but its payload is not valid JSON:
    /// recoverable, the connection stays usable for the next frame.
    Payload(serde_json::Error),
}

/// A complete, validated response: constructed only from a fully buffered,
/// length-checked frame whose payload parsed, never observable half-filled.
pub struct MsgResponse {
    /// The message-type code from the frame header.
    pub msg_type: u32,
    /// The parsed JSON payload.
    pub body: serde_json::Value,
}

/// The outcome of one receive attempt.
pub enum PollResponse {
    /// Not enough bytes buffered yet; feed more and try again.
    Pending,
    /// One whole response, removed from the buffer.
    Ready(MsgResponse),
    /// The receive failed; see [`ClientError`] for whether the connection
    /// survives.
    Failed(ClientError),
}

/// Parses a raw frame's payload as JSON. The message type is passed through
/// untouched; a parse failure is reported as a recoverable payload error.
pub fn decode_response(frame: RawFrame) -> (r: Result<MsgResponse, ClientError>)
    ensures
        r matches Ok(resp) ==> resp.msg_type == frame.msg_type && spec_json_parse(frame.payload@)
            == Some(resp.body),
        r matches Err(e) ==> e matches ClientError::Payload(_) && spec_json_parse(frame.payload@)
            is None,
{
    match parse_json(frame.payload.as_slice()) {
        Ok(v) => Ok(MsgResponse { msg_type: frame.msg_type, body: v }),
        Err(e) => Err(ClientError::Payload(e)),
    }
}

/// One receive attempt over everything fed so far: takes one frame off the
/// buffer if a whole one has arrived and parses its payload. Exactly the
/// frame's bytes are consumed; trailing bytes stay buffered for later frames.
pub fn poll_response(dec: &mut FrameDecoder) -> (r: PollResponse)
    ensures
        match spec_step(old(dec)@) {
            SpecStep::Pending => r is Pending && final(dec)@ == old(dec)@,
            SpecStep::Desync => {
                &&& r matches PollResponse::Failed(e)
                &&& e is Desync
                &&& final(dec)@ == old(dec)@
            },
            SpecStep::Frame { msg_type, payload, rest } => {
                &&& final(dec)@ == rest
                &&& match spec_json_parse(payload) {
                    Some(v) => r matches PollResponse::Ready(resp) && resp.msg_type == msg_type
                        && resp.body == v,
                    None => r matches PollResponse::Failed(e) && e matches ClientError::Payload(_),
                }
            },
        },
{
    match dec.poll_frame() {
        PollFrame::Pending => PollResponse::Pending,
        PollFrame::Desync => PollResponse::Failed(ClientError::Desync),
        PollFrame::Ready(f) => match decode_response(f) {
            Ok(resp) => PollResponse::Ready(resp),
            Err(e) => PollResponse::Failed(e),
        },
    }
}

/// The error owed to the caller when the peer closes the stream: none on a
/// clean end, desync when the buffered prefix already disagreed with the
/// magic, and an incomplete frame when a partial header or payload was
/// buffered.
pub fn eof_error(status: EofStatus) -> (r: Option<ClientError>)
    ensures
        r is None <==> status == EofStatus::Clean,
        status == EofStatus::Desync ==> (r matches Some(e) && e is Desync),
        status == EofStatus::Incomplete ==> (r matches Some(e) && e is Incomplete),
{
    match status {
        EofStatus::Clean => None,
        EofStatus::Desync => Some(ClientError::Desync),
        EofStatus::Incomplete => Some(ClientError::Incomplete),
    }
}

} // verus!
