//! The byte buffers this codec reads from and writes to, as `bytes` and
//! `byteorder` provide them. Every item here is taken on trust: its contract
//! restates what the outside source does.

use vstd::prelude::*;
use byteorder::ByteOrder;
use bytes::Buf;
use bytes::BufMut;

verus! {

#[verifier::external_type_specification]
#[verifier::external_body]
pub struct ExBytes(bytes::Bytes);

#[verifier::external_type_specification]
#[verifier::external_body]
pub struct ExBytesMut(bytes::BytesMut);

#[verifier::external_type_specification]
#[verifier::external_body]
#[verifier::reject_recursive_types(T)]
pub struct ExLimit<T>(bytes::buf::Limit<T>);

/// The octets that a `Bytes` cursor has not yet handed out, in order.
pub uninterp spec fn unread(b: bytes::Bytes) -> Seq<u8>;

/// The octets written so far into the `BytesMut` under a `Limit`.
pub uninterp spec fn written(w: bytes::buf::Limit<bytes::BytesMut>) -> Seq<u8>;

/// The number of octets that a `Limit` still lets through.
pub uninterp spec fn limit_left(w: bytes::buf::Limit<bytes::BytesMut>) -> nat;

/// What `BufMut::remaining_mut` reports for a limited `BytesMut`: the smaller
/// of the limit and what `BytesMut` still allows up to `isize::MAX` octets.
pub open spec fn room(w: bytes::buf::Limit<bytes::BytesMut>) -> int {
    let own = isize::MAX - written(w).len();
    if own < limit_left(w) {
        own
    } else {
        limit_left(w) as int
    }
}

/// Relies on `Buf::remaining` for `Bytes`: the count of unread octets.
#[verifier::external_body]
pub(crate) fn remaining(b: &bytes::Bytes) -> (r: usize)
    ensures
        r == unread(*b).len(),
{
    b.remaining()
}

/// Relies on `Buf::get_u8` for `Bytes`: hands out the first unread octet and
/// moves past it.
#[verifier::external_body]
pub(crate) fn get_u8(b: &mut bytes::Bytes) -> (r: u8)
    requires
        unread(*old(b)).len() >= 1,
    ensures
        r == unread(*old(b))[0],
        unread(*final(b)) == unread(*old(b)).skip(1),
{
    b.get_u8()
}

/// Relies on `Buf::copy_to_slice` for `Bytes`: copies the next
/// `end - start` unread octets into `dst[start..end]` and moves past them.
#[verifier::external_body]
pub(crate) fn copy_to_slice(b: &mut bytes::Bytes, dst: &mut [u8; 8], start: usize, end: usize)
    requires
        start <= end <= 8,
        end - start <= unread(*old(b)).len(),
    ensures
        final(dst)@ == old(dst)@.subrange(0, start as int) + unread(*old(b)).subrange(
            0,
            end - start,
        ) + old(dst)@.subrange(end as int, 8),
        unread(*final(b)) == unread(*old(b)).skip(end - start),
{
    b.copy_to_slice(&mut dst[start..end])
}

/// Relies on `BigEndian::read_u16`: the first two octets, big-endian.
#[verifier::external_body]
pub(crate) fn read_u16(buf: &[u8; 8]) -> (r: u16)
    ensures
        r == crate::wire::be16(buf[0], buf[1]),
{
    byteorder::BigEndian::read_u16(buf)
}

/// Relies on `BigEndian::read_u32`: the first four octets, big-endian.
#[verifier::external_body]
pub(crate) fn read_u32(buf: &[u8; 8]) -> (r: u32)
    ensures
        r == crate::wire::be32(buf[0], buf[1], buf[2], buf[3]),
{
    byteorder::BigEndian::read_u32(buf)
}

/// Relies on `BigEndian::read_u64`: the eight octets, big-endian.
#[verifier::external_body]
pub(crate) fn read_u64(buf: &[u8; 8]) -> (r: u64)
    ensures
        r == crate::wire::be64(buf[0], buf[1], buf[2], buf[3], buf[4], buf[5], buf[6], buf[7]),
{
    byteorder::BigEndian::read_u64(buf)
}

/// Relies on `BufMut::remaining_mut` for `Limit<BytesMut>`: the minimum of
/// the limit and `isize::MAX` less the length written.
#[verifier::external_body]
pub(crate) fn remaining_mut(w: &bytes::buf::Limit<bytes::BytesMut>) -> (r: usize)
    ensures
        r == room(*w),
{
    w.remaining_mut()
}

/// Relies on `BufMut::put_u8` for `Limit<BytesMut>`: appends one octet and
/// lowers the limit by one.
#[verifier::external_body]
pub(crate) fn put_u8(w: &mut bytes::buf::Limit<bytes::BytesMut>, n: u8)
    requires
        room(*old(w)) >= 1,
    ensures
        written(*final(w)) == written(*old(w)).push(n),
        limit_left(*final(w)) == limit_left(*old(w)) - 1,
{
    w.put_u8(n)
}

/// Relies on `BufMut::put_u16` for `Limit<BytesMut>`: appends two octets,
/// big-endian, and lowers the limit by two.
#[verifier::external_body]
pub(crate) fn put_u16(w: &mut bytes::buf::Limit<bytes::BytesMut>, n: u16)
    requires
        room(*old(w)) >= 2,
    ensures
        written(*final(w)) == written(*old(w)) + seq![(n >> 8u16) as u8, n as u8],
        limit_left(*final(w)) == limit_left(*old(w)) - 2,
{
    w.put_u16(n)
}

/// Relies on `BufMut::put_u32` for `Limit<BytesMut>`: appends four octets,
/// big-endian, and lowers the limit by four.
#[verifier::external_body]
pub(crate) fn put_u32(w: &mut bytes::buf::Limit<bytes::BytesMut>, n: u32)
    requires
        room(*old(w)) >= 4,
    ensures
        written(*final(w)) == written(*old(w)) + seq![
            (n >> 24u32) as u8,
            (n >> 16u32) as u8,
            (n >> 8u32) as u8,
            n as u8,
        ],
        limit_left(*final(w)) == limit_left(*old(w)) - 4,
{
    w.put_u32(n)
}

/// Relies on `BufMut::put_u64` for `Limit<BytesMut>`: appends eight octets,
/// big-endian, and lowers the limit by eight.
#[verifier::external_body]
pub(crate) fn put_u64(w: &mut bytes::buf::Limit<bytes::BytesMut>, n: u64)
    requires
        room(*old(w)) >= 8,
    ensures
        written(*final(w)) == written(*old(w)) + seq![
            (n >> 56u64) as u8,
            (n >> 48u64) as u8,
            (n >> 40u64) as u8,
            (n >> 32u64) as u8,
            (n >> 24u64) as u8,
            (n >> 16u64) as u8,
            (n >> 8u64) as u8,
            n as u8,
        ],
        limit_left(*final(w)) == limit_left(*old(w)) - 8,
{
    w.put_u64(n)
}

} // verus!
