//! Client-side codec for a length-prefixed, magic-tagged binary message
//! protocol spoken over a local duplex byte stream.
//!
//! The library covers the framing codec and its resumable read/write state:
//! how an outgoing message is serialized into the wire format, how incoming
//! bytes are accumulated and split into header and payload across arbitrarily
//! short reads, and how the payload is handed to the JSON parser once a whole
//! frame has arrived. The actual socket I/O lives outside the library; callers
//! feed bytes in and take frames and pending output bytes back out.

pub mod decoder;
pub mod frame;
pub mod laws;
pub mod response;
pub mod writer;
