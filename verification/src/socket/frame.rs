//! Frames: a two-byte big-endian length, then that many bytes of payload.
//!
//! Reading is incremental. Until a whole frame is buffered nothing is taken
//! from the buffer; once it is, exactly the header and the payload leave it.

use crate::socket::buffer::{
    be16, buffer_bytes, buffer_get_u16, buffer_put, buffer_put_u16, buffer_reserve, buffer_slice,
    buffer_split_to, hi_byte, lo_byte,
};
use bytes::BytesMut;
use vstd::prelude::*;

verus! {

/// The longest payload that the 16-bit header can announce.
pub const MAX_PAYLOAD: usize = 65535;

/// The frame that carries a payload: header, then payload.
pub open spec fn frame(payload: Seq<u8>) -> Seq<u8>
    recommends
        payload.len() <= MAX_PAYLOAD,
{
    seq![hi_byte(payload.len() as u16), lo_byte(payload.len() as u16)] + payload
}

/// The payload length that the first two bytes of a buffer announce.
pub open spec fn announced(buf: Seq<u8>) -> int
    recommends
        buf.len() >= 2,
{
    be16(buf[0], buf[1])
}

/// Whether a buffer starts with a whole frame.
pub open spec fn frame_ready(buf: Seq<u8>) -> bool {
    buf.len() >= 2 && buf.len() >= 2 + announced(buf)
}

/// The payload of the frame that a buffer starts with.
pub open spec fn first_payload(buf: Seq<u8>) -> Seq<u8>
    recommends
        frame_ready(buf),
{
    buf.subrange(2, 2 + announced(buf))
}

/// What is left of a buffer behind its first frame.
pub open spec fn after_first_frame(buf: Seq<u8>) -> Seq<u8>
    recommends
        frame_ready(buf),
{
    buf.skip(2 + announced(buf))
}

/// The two header bytes stand for the length they were made from.
pub proof fn lemma_header_value(n: u16)
    ensures
        be16(hi_byte(n), lo_byte(n)) == n,
{
}

/// A frame followed by anything: the frame is ready, its payload is the one
/// that was framed, and what follows is left over, byte for byte.
pub proof fn lemma_frame_then_rest(payload: Seq<u8>, rest: Seq<u8>)
    requires
        payload.len() <= MAX_PAYLOAD,
    ensures
        frame_ready(frame(payload) + rest),
        first_payload(frame(payload) + rest) == payload,
        after_first_frame(frame(payload) + rest) == rest,
{
    let buf = frame(payload) + rest;
    lemma_header_value(payload.len() as u16);
    assert(buf[0] == hi_byte(payload.len() as u16));
    assert(buf[1] == lo_byte(payload.len() as u16));
    assert(buf.subrange(2, 2 + payload.len() as int) =~= payload);
    assert(buf.skip(2 + payload.len() as int) =~= rest);
}

/// No proper prefix of a frame is a whole frame.
pub proof fn lemma_frame_prefix_not_ready(payload: Seq<u8>, k: int)
    requires
        payload.len() <= MAX_PAYLOAD,
        0 <= k < frame(payload).len(),
    ensures
        !frame_ready(frame(payload).take(k)),
{
    let whole = frame(payload);
    let part = whole.take(k);
    lemma_header_value(payload.len() as u16);
    if k >= 2 {
        assert(part[0] == whole[0]);
        assert(part[1] == whole[1]);
    }
}

/// Takes the first frame's payload out of the buffer, if a whole frame is
/// there.
///
/// With fewer than two bytes, or fewer payload bytes than the header
/// announces, the result is `None` and the buffer is untouched. Otherwise the
/// header and the payload leave the buffer and the payload is returned.
pub fn take_frame(src: &mut BytesMut) -> (r: Option<BytesMut>)
    ensures
        match r {
            None => !frame_ready(buffer_bytes(*old(src))) && buffer_bytes(*final(src))
                == buffer_bytes(*old(src)),
            Some(payload) => frame_ready(buffer_bytes(*old(src))) && buffer_bytes(payload)
                == first_payload(buffer_bytes(*old(src))) && buffer_bytes(*final(src))
                == after_first_frame(buffer_bytes(*old(src))),
        },
{
    let ghost before = buffer_bytes(*src);
    let bytes = buffer_slice(src);
    let len = bytes.len();
    if len < 2 {
        return None;
    }
    let size: usize = bytes[0] as usize * 256 + bytes[1] as usize;
    if len - 2 < size {
        return None;
    }
    let n = buffer_get_u16(src);
    let payload = buffer_split_to(src, n as usize);
    proof {
        assert(buffer_bytes(payload) =~= first_payload(before));
        assert(buffer_bytes(*src) =~= after_first_frame(before));
    }
    Some(payload)
}

/// Appends the frame of a payload to the buffer.
pub fn put_frame(dst: &mut BytesMut, payload: &[u8])
    requires
        payload@.len() <= MAX_PAYLOAD,
    ensures
        buffer_bytes(*final(dst)) == buffer_bytes(*old(dst)) + frame(payload@),
{
    let ghost before = buffer_bytes(*dst);
    let len = payload.len();
    // Looked at for its bound alone: no buffer is so long that the frame
    // would not fit behind it.
    let _ = buffer_slice(dst);
    buffer_reserve(dst, len + 2);
    buffer_put_u16(dst, len as u16);
    buffer_put(dst, payload);
    proof {
        assert(buffer_bytes(*dst) =~= before + frame(payload@));
    }
}

} // verus!
