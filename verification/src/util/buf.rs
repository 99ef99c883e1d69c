//! Byte buffers of the `bytes` crate, as seen by the verified code.
//!
//! A `BytesMut` and a `Bytes` are opaque to Verus; their contents are
//! named by [`buf_bytes`] and [`frozen_bytes`], and each method that the
//! library calls has a contract over those names.

use vstd::prelude::*;
use bytes::{Buf, BufMut, Bytes, BytesMut};

verus! {

#[verifier::external_type_specification]
#[verifier::external_body]
pub struct ExBytesMut(bytes::BytesMut);

#[verifier::external_type_specification]
#[verifier::external_body]
pub struct ExBytes(bytes::Bytes);

/// The bytes that a `BytesMut` holds, from its read position to its end.
pub uninterp spec fn buf_bytes(b: BytesMut) -> Seq<u8>;

/// The bytes that a `Bytes` holds.
pub uninterp spec fn frozen_bytes(b: Bytes) -> Seq<u8>;

/// The unsigned integer that `s` spells in big-endian byte order.
pub open spec fn be_value(s: Seq<u8>) -> nat
    decreases s.len(),
{
    if s.len() == 0 {
        0
    } else {
        be_value(s.drop_last()) * 256 + (s.last() as nat)
    }
}

/// The lowest `k` bytes of `n`, most significant first.
pub open spec fn be_bytes(n: u64, k: nat) -> Seq<u8>
    decreases k,
{
    if k == 0 {
        Seq::empty()
    } else {
        be_bytes(n / 256, (k - 1) as nat).push((n % 256) as u8)
    }
}

/// `BytesMut::len`: the number of bytes held.
#[verifier::external_body]
pub(crate) fn buf_len(b: &BytesMut) -> (n: usize)
    ensures
        n == buf_bytes(*b).len(),
{
    b.len()
}

/// `Bytes::len`: the number of bytes held.
#[verifier::external_body]
pub(crate) fn bytes_len(b: &Bytes) -> (n: usize)
    ensures
        n == frozen_bytes(*b).len(),
{
    b.len()
}

/// Index into a `BytesMut` (through its byte slice): the byte at `i`.
#[verifier::external_body]
pub(crate) fn buf_byte(b: &BytesMut, i: usize) -> (x: u8)
    requires
        i < buf_bytes(*b).len(),
    ensures
        x == buf_bytes(*b)[i as int],
{
    b[i]
}

/// Mutable index into a `BytesMut`: `b[i] = v`.
#[verifier::external_body]
pub(crate) fn buf_set_byte(b: &mut BytesMut, i: usize, v: u8)
    requires
        i < buf_bytes(*old(b)).len(),
    ensures
        buf_bytes(*final(b)) == buf_bytes(*old(b)).update(i as int, v),
{
    b[i] = v;
}

/// `Buf::get_uint` on a `BytesMut`: reads the first `nbytes` bytes as a
/// big-endian integer and advances past them. The source panics when
/// `nbytes > 8` or when fewer than `nbytes` bytes remain.
#[verifier::external_body]
pub(crate) fn buf_get_uint(b: &mut BytesMut, nbytes: usize) -> (v: u64)
    requires
        nbytes <= 8,
        nbytes <= buf_bytes(*old(b)).len(),
    ensures
        v == be_value(buf_bytes(*old(b)).take(nbytes as int)),
        buf_bytes(*final(b)) == buf_bytes(*old(b)).skip(nbytes as int),
{
    b.get_uint(nbytes)
}

/// `BytesMut::reserve`: makes room for `additional` more bytes and leaves
/// the contents as they are. It panics when the new capacity overflows,
/// which the bound below rules out.
#[verifier::external_body]
pub(crate) fn buf_reserve(b: &mut BytesMut, additional: usize)
    requires
        buf_bytes(*old(b)).len() + additional <= isize::MAX,
    ensures
        buf_bytes(*final(b)) == buf_bytes(*old(b)),
{
    b.reserve(additional)
}

/// `BytesMut::split_to`: hands out the first `at` bytes and keeps the
/// rest. The source panics when `at` exceeds the length.
#[verifier::external_body]
pub(crate) fn buf_split_to(b: &mut BytesMut, at: usize) -> (front: BytesMut)
    requires
        at <= buf_bytes(*old(b)).len(),
    ensures
        buf_bytes(front) == buf_bytes(*old(b)).take(at as int),
        buf_bytes(*final(b)) == buf_bytes(*old(b)).skip(at as int),
{
    b.split_to(at)
}

/// `BufMut::put_uint` on a `BytesMut`: appends the lowest `nbytes` bytes
/// of `n` in big-endian order. The source panics when `nbytes > 8`.
#[verifier::external_body]
pub(crate) fn buf_put_uint(b: &mut BytesMut, n: u64, nbytes: usize)
    requires
        nbytes <= 8,
        buf_bytes(*old(b)).len() + nbytes <= isize::MAX,
    ensures
        buf_bytes(*final(b)) == buf_bytes(*old(b)) + be_bytes(n, nbytes as nat),
{
    b.put_uint(n, nbytes)
}

/// `BytesMut::extend_from_slice`: appends the bytes of `s`.
#[verifier::external_body]
pub(crate) fn buf_extend_from_slice(b: &mut BytesMut, s: &[u8])
    requires
        buf_bytes(*old(b)).len() + s@.len() <= isize::MAX,
    ensures
        buf_bytes(*final(b)) == buf_bytes(*old(b)) + s@,
{
    b.extend_from_slice(s)
}

/// `Bytes` as a byte slice (`AsRef<[u8]>`).
#[verifier::external_body]
pub(crate) fn bytes_as_slice(b: &Bytes) -> (s: &[u8])
    ensures
        s@ == frozen_bytes(*b),
{
    b.as_ref()
}

/// `Bytes::from(Vec<u8>)`: the bytes of `v`, frozen.
#[verifier::external_body]
pub(crate) fn bytes_from_vec(v: Vec<u8>) -> (b: Bytes)
    ensures
        frozen_bytes(b) == v@,
{
    Bytes::from(v)
}

} // verus!
