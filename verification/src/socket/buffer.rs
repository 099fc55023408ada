//! The byte buffer that frames are read from and written to.
//!
//! The buffer is `bytes::BytesMut`. Verus cannot look inside it, so its
//! contents get a name, and every call into the `bytes` crate goes through one
//! function here whose contract is taken on trust from that crate's
//! documentation.

use bytes::{Buf, BufMut, BytesMut};
use vstd::prelude::*;

verus! {

#[verifier::external_type_specification]
#[verifier::external_body]
pub struct ExBytesMut(bytes::BytesMut);

/// The bytes that a buffer holds, front first.
pub uninterp spec fn buffer_bytes(buf: BytesMut) -> Seq<u8>;

/// The number that two header bytes stand for, most significant byte first.
pub open spec fn be16(hi: u8, lo: u8) -> int {
    hi as int * 256 + lo as int
}

/// The more significant byte of a 16-bit number.
pub open spec fn hi_byte(n: u16) -> u8 {
    (n as int / 256) as u8
}

/// The less significant byte of a 16-bit number.
pub open spec fn lo_byte(n: u16) -> u8 {
    (n as int % 256) as u8
}

/// `BytesMut` dereferences to the slice of the bytes it holds (`Deref::deref`).
///
/// Trusted: the slice is the buffer's contents. Its length is at most
/// `isize::MAX`, the largest allocation there is; `bytes` itself computes
/// `isize::MAX - len` for the room that is left.
#[verifier::external_body]
pub(crate) fn buffer_slice(buf: &BytesMut) -> (s: &[u8])
    ensures
        s@ == buffer_bytes(*buf),
        s@.len() <= isize::MAX,
{
    &buf[..]
}

/// `Buf::get_u16`: reads a big-endian 16-bit number off the front.
///
/// Trusted: the result is made of the first two bytes, most significant
/// first, and those two bytes leave the buffer. The call panics on fewer than
/// two bytes, which `requires` rules out.
#[verifier::external_body]
pub(crate) fn buffer_get_u16(buf: &mut BytesMut) -> (n: u16)
    requires
        buffer_bytes(*old(buf)).len() >= 2,
    ensures
        n as int == be16(buffer_bytes(*old(buf))[0], buffer_bytes(*old(buf))[1]),
        buffer_bytes(*final(buf)) == buffer_bytes(*old(buf)).skip(2),
{
    buf.get_u16()
}

/// `BytesMut::split_to`: cuts the first `at` bytes off.
///
/// Trusted: the result holds bytes `[0, at)`, the buffer keeps `[at, len)`.
/// The call panics when `at` is past the end, which `requires` rules out.
#[verifier::external_body]
pub(crate) fn buffer_split_to(buf: &mut BytesMut, at: usize) -> (head: BytesMut)
    requires
        at <= buffer_bytes(*old(buf)).len(),
    ensures
        buffer_bytes(head) == buffer_bytes(*old(buf)).take(at as int),
        buffer_bytes(*final(buf)) == buffer_bytes(*old(buf)).skip(at as int),
{
    buf.split_to(at)
}

/// `BytesMut::reserve`: makes room for `additional` more bytes.
///
/// Trusted: the contents stay as they are. The call panics when the new
/// capacity overflows `usize`, which `requires` rules out.
#[verifier::external_body]
pub(crate) fn buffer_reserve(buf: &mut BytesMut, additional: usize)
    requires
        buffer_bytes(*old(buf)).len() + additional <= usize::MAX,
    ensures
        buffer_bytes(*final(buf)) == buffer_bytes(*old(buf)),
{
    buf.reserve(additional)
}

/// `BufMut::put_u16`: appends a 16-bit number, big-endian.
///
/// Trusted: two bytes are appended, the more significant one first. A
/// `BytesMut` grows as needed; growing panics on overflow of `usize`, which
/// `requires` rules out.
#[verifier::external_body]
pub(crate) fn buffer_put_u16(buf: &mut BytesMut, n: u16)
    requires
        buffer_bytes(*old(buf)).len() + 2 <= usize::MAX,
    ensures
        buffer_bytes(*final(buf)) == buffer_bytes(*old(buf)).push(hi_byte(n)).push(lo_byte(n)),
{
    buf.put_u16(n)
}

/// `BufMut::put`: appends the bytes of a slice.
///
/// Trusted: the slice's bytes are appended in order. A `BytesMut` grows as
/// needed; growing panics on overflow of `usize`, which `requires` rules out.
#[verifier::external_body]
pub(crate) fn buffer_put(buf: &mut BytesMut, src: &[u8])
    requires
        buffer_bytes(*old(buf)).len() + src@.len() <= usize::MAX,
    ensures
        buffer_bytes(*final(buf)) == buffer_bytes(*old(buf)) + src@,
{
    buf.put(src)
}

} // verus!
