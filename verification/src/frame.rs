//! The wire format: a fixed 14-byte header followed by the payload.
//!
//! Header layout: 6 magic bytes (the ASCII text `i3-ipc`), then the payload
//! length and the message-type code, each as a little-endian unsigned 32-bit
//! integer.

use vstd::prelude::*;

verus! {

/// The six ASCII bytes `i3-ipc` that begin every frame.
pub open spec fn spec_magic() -> Seq<u8> {
    seq![105u8, 51u8, 45u8, 105u8, 112u8, 99u8]
}

/// The four bytes of `v` in little-endian order.
pub open spec fn spec_u32_le(v: u32) -> Seq<u8> {
    seq![
        (v & 0xff) as u8,
        ((v >> 8) & 0xff) as u8,
        ((v >> 16) & 0xff) as u8,
        ((v >> 24) & 0xff) as u8,
    ]
}

/// The unsigned 32-bit integer stored little-endian in the four bytes of `b`.
pub open spec fn spec_le_u32(b: Seq<u8>) -> u32
    recommends
        b.len() == 4,
{
    (b[0] as u32) | ((b[1] as u32) << 8) | ((b[2] as u32) << 16) | ((b[3] as u32) << 24)
}

/// One whole frame on the wire: magic, payload length, message type, payload.
pub open spec fn spec_frame(msg_type: u32, payload: Seq<u8>) -> Seq<u8>
    recommends
        payload.len() <= u32::MAX,
{
    spec_magic() + spec_u32_le(payload.len() as u32) + spec_u32_le(msg_type) + payload
}

/// Reading back the four little-endian bytes of `v` recovers `v`.
pub proof fn lemma_le_round_trip(v: u32)
    ensures
        spec_le_u32(spec_u32_le(v)) == v,
{
    let b0 = (v & 0xff) as u8;
    let b1 = ((v >> 8) & 0xff) as u8;
    let b2 = ((v >> 16) & 0xff) as u8;
    let b3 = ((v >> 24) & 0xff) as u8;
    assert(spec_u32_le(v)[0] == b0);
    assert(spec_u32_le(v)[1] == b1);
    assert(spec_u32_le(v)[2] == b2);
    assert(spec_u32_le(v)[3] == b3);
    assert((b0 as u32) | ((b1 as u32) << 8) | ((b2 as u32) << 16) | ((b3 as u32) << 24) == v)
        by (bit_vector)
        requires
            b0 == (v & 0xff) as u8,
            b1 == ((v >> 8) & 0xff) as u8,
            b2 == ((v >> 16) & 0xff) as u8,
            b3 == ((v >> 24) & 0xff) as u8,
    ;
}

/// The six magic bytes as a fresh buffer.
pub fn magic_bytes() -> (r: Vec<u8>)
    ensures
        r@ == spec_magic(),
{
    let mut v: Vec<u8> = Vec::new();
    v.push(105);
    v.push(51);
    v.push(45);
    v.push(105);
    v.push(112);
    v.push(99);
    proof {
        assert(v@ =~= spec_magic());
    }
    v
}

/// Appends the four little-endian bytes of `v` to `out`.
pub fn push_u32_le(out: &mut Vec<u8>, v: u32)
    ensures
        final(out)@ == old(out)@ + spec_u32_le(v),
{
    proof {
        assert(v & 0xff < 256 && (v >> 8) & 0xff < 256 && (v >> 16) & 0xff < 256 && (v >> 24)
            & 0xff < 256) by (bit_vector);
    }
    out.push((v & 0xff) as u8);
    out.push(((v >> 8) & 0xff) as u8);
    out.push(((v >> 16) & 0xff) as u8);
    out.push(((v >> 24) & 0xff) as u8);
    proof {
        assert(out@ =~= old(out)@ + spec_u32_le(v));
    }
}

/// Reads the little-endian unsigned 32-bit integer at offset `off` of `buf`.
pub fn read_u32_le(buf: &Vec<u8>, off: usize) -> (r: u32)
    requires
        off + 4 <= buf@.len(),
    ensures
        r == spec_le_u32(buf@.subrange(off as int, off as int + 4)),
{
    // witnesses that the buffer's length, and so `off + 4`, fits in usize
    let _n = buf.len();
    let b0 = buf[off] as u32;
    let b1 = buf[off + 1] as u32;
    let b2 = buf[off + 2] as u32;
    let b3 = buf[off + 3] as u32;
    let r = b0 | (b1 << 8u32) | (b2 << 16u32) | (b3 << 24u32);
    proof {
        let s = buf@.subrange(off as int, off as int + 4);
        assert(s[0] == buf@[off as int]);
        assert(s[1] == buf@[off as int + 1]);
        assert(s[2] == buf@[off as int + 2]);
        assert(s[3] == buf@[off as int + 3]);
    }
    r
}

/// Serializes one frame: magic, payload length, message type, then the
/// payload itself. The result is exactly 14 bytes longer than the payload.
pub fn encode_frame(msg_type: u32, payload: &[u8]) -> (r: Vec<u8>)
    requires
        payload@.len() <= u32::MAX,
    ensures
        r@ == spec_frame(msg_type, payload@),
        r@.len() == 14 + payload@.len(),
{
    let mut out = magic_bytes();
    push_u32_le(&mut out, payload.len() as u32);
    push_u32_le(&mut out, msg_type);
    let ghost header = spec_magic() + spec_u32_le(payload@.len() as u32) + spec_u32_le(msg_type);
    let mut i: usize = 0;
    while i < payload.len()
        invariant
            i <= payload@.len(),
            out@ == header + payload@.subrange(0, i as int),
        decreases payload@.len() - i,
    {
        out.push(*vstd::slice::slice_index_get(payload, i));
        proof {
            assert(header + payload@.subrange(0, i as int + 1) =~= (header + payload@.subrange(
                0,
                i as int,
            )).push(payload@[i as int]));
        }
        i += 1;
    }
    proof {
        assert(payload@.subrange(0, payload@.len() as int) =~= payload@);
        assert(out@ =~= spec_frame(msg_type, payload@));
    }
    out
}

} // verus!
