//! The byte buffers of the `bytes` crate, as the codec sees them.
//!
//! `BytesMut` is the growable buffer that messages are written to and read
//! from; `Bytes` is the frozen, shared form in which opaque fields are kept.
//! Both are declared to Verus as opaque types; what they hold is named by
//! `bytes_mut_view` and `bytes_view`, and each method that the codec calls has
//! a wrapper whose contract states what the method does to that content.
use vstd::prelude::*;

use bytes::{Buf, BufMut, Bytes, BytesMut};

verus! {

#[verifier::external_type_specification]
#[verifier::external_body]
pub struct ExBytesMut(BytesMut);

#[verifier::external_type_specification]
#[verifier::external_body]
pub struct ExBytes(Bytes);

/// The bytes that a `BytesMut` holds, from its read position to its end.
pub uninterp spec fn bytes_mut_view(b: BytesMut) -> Seq<u8>;

/// The bytes that a `Bytes` holds.
pub uninterp spec fn bytes_view(b: Bytes) -> Seq<u8>;

/// Big-endian encoding of a 16-bit value.
pub open spec fn be16(v: u16) -> Seq<u8> {
    seq![(v / 256) as u8, (v % 256) as u8]
}

/// Big-endian encoding of a 32-bit value.
pub open spec fn be32(v: u32) -> Seq<u8> {
    seq![(v / 0x100_0000) as u8, ((v / 0x1_0000) % 256) as u8, ((v / 256) % 256) as u8, (v % 256) as u8]
}

/// Big-endian encoding of a 64-bit value.
pub open spec fn be64(v: u64) -> Seq<u8> {
    be32((v / 0x1_0000_0000) as u32) + be32((v % 0x1_0000_0000) as u32)
}

/// The 16-bit value whose big-endian encoding starts at `s[i]`.
pub open spec fn read_be16(s: Seq<u8>, i: int) -> u16 {
    (s[i] * 256 + s[i + 1]) as u16
}

/// Big-endian encoding of the low 24 bits of a value.
pub open spec fn be24(v: nat) -> Seq<u8> {
    seq![((v / 0x1_0000) % 256) as u8, ((v / 256) % 256) as u8, (v % 256) as u8]
}

/// The 24-bit value whose big-endian encoding starts at `s[i]`.
pub open spec fn read_be24(s: Seq<u8>, i: int) -> nat {
    (s[i] * 0x1_0000 + s[i + 1] * 256 + s[i + 2]) as nat
}

/// Reading back a 24-bit big-endian encoding of a value below 2^24 gives the value.
pub proof fn lemma_be24_roundtrip(v: nat)
    requires
        v < 0x100_0000,
    ensures
        read_be24(be24(v), 0) == v,
{
    let x = v as u32;
    assert(((x / 0x1_0000) % 256) as u8 * 0x1_0000 + ((x / 256) % 256) as u8 * 256 + (x % 256) as u8 == x)
        by (bit_vector)
        requires
            x < 0x100_0000,
    ;
}

/// Writes a 24-bit big-endian length (the low 24 bits of `v`).
pub fn put_u24(b: &mut BytesMut, v: usize)
    requires
        bytes_mut_view(*old(b)).len() + 3 <= isize::MAX,
    ensures
        bytes_mut_view(*final(b)) == bytes_mut_view(*old(b)) + be24(v as nat),
{
    bm_put_u8(b, ((v / 0x1_0000) % 256) as u8);
    bm_put_u8(b, ((v / 256) % 256) as u8);
    bm_put_u8(b, (v % 256) as u8);
    assert(bytes_mut_view(*b) =~= bytes_mut_view(*old(b)) + be24(v as nat));
}

/// Reads a 24-bit big-endian length.
pub fn get_u24(b: &mut BytesMut) -> (res: usize)
    requires
        bytes_mut_view(*old(b)).len() >= 3,
    ensures
        res == read_be24(bytes_mut_view(*old(b)), 0),
        bytes_mut_view(*final(b)) == bytes_mut_view(*old(b)).skip(3),
{
    let b0 = bm_get_u8(b) as usize;
    let b1 = bm_get_u8(b) as usize;
    let b2 = bm_get_u8(b) as usize;
    b0 * 0x1_0000 + b1 * 256 + b2
}

/// The 32-bit value whose big-endian encoding starts at `s[i]`.
pub open spec fn read_be32(s: Seq<u8>, i: int) -> u32 {
    (s[i] * 0x100_0000 + s[i + 1] * 0x1_0000 + s[i + 2] * 256 + s[i + 3]) as u32
}

/// The 64-bit value whose big-endian encoding starts at `s[i]`.
pub open spec fn read_be64(s: Seq<u8>, i: int) -> u64 {
    (read_be32(s, i) * 0x1_0000_0000 + read_be32(s, i + 4)) as u64
}

/// Reading back a 32-bit big-endian encoding gives the value.
pub proof fn lemma_be32_roundtrip(v: u32)
    ensures
        read_be32(be32(v), 0) == v,
{
    assert((v / 0x100_0000) as u8 * 0x100_0000 + ((v / 0x1_0000) % 256) as u8 * 0x1_0000
        + ((v / 256) % 256) as u8 * 256 + (v % 256) as u8 == v) by (bit_vector);
}

/// Reading back a 64-bit big-endian encoding gives the value.
pub proof fn lemma_be64_roundtrip(v: u64)
    ensures
        read_be64(be64(v), 0) == v,
{
    let hi = (v / 0x1_0000_0000) as u32;
    let lo = (v % 0x1_0000_0000) as u32;
    lemma_be32_roundtrip(hi);
    lemma_be32_roundtrip(lo);
    let s = be64(v);
    assert(s.skip(4) =~= be32(lo));
    assert(read_be32(s, 4) == read_be32(s.skip(4), 0));
    assert(read_be32(s, 0) == read_be32(be32(hi), 0));
    assert(hi * 0x1_0000_0000 + lo == v);
}

/// `BytesMut::new`: an empty buffer.
#[verifier::external_body]
pub(crate) fn bm_new() -> (res: BytesMut)
    ensures
        bytes_mut_view(res) == Seq::<u8>::empty(),
{
    BytesMut::new()
}

/// `BytesMut::len`: the number of bytes held.
#[verifier::external_body]
pub(crate) fn bm_len(b: &BytesMut) -> (res: usize)
    ensures
        res == bytes_mut_view(*b).len(),
{
    b.len()
}

/// `BufMut::put_u8` on a `BytesMut`: appends the byte. The buffer grows; it
/// panics only when its length would pass `isize::MAX`.
#[verifier::external_body]
pub(crate) fn bm_put_u8(b: &mut BytesMut, v: u8)
    requires
        bytes_mut_view(*old(b)).len() + 1 <= isize::MAX,
    ensures
        bytes_mut_view(*final(b)) == bytes_mut_view(*old(b)).push(v),
{
    b.put_u8(v)
}

/// `BufMut::put_u16` on a `BytesMut`: appends the value in big-endian order.
#[verifier::external_body]
pub(crate) fn bm_put_u16(b: &mut BytesMut, v: u16)
    requires
        bytes_mut_view(*old(b)).len() + 2 <= isize::MAX,
    ensures
        bytes_mut_view(*final(b)) == bytes_mut_view(*old(b)) + be16(v),
{
    b.put_u16(v)
}

/// `BufMut::put_u32` on a `BytesMut`: appends the value in big-endian order.
#[verifier::external_body]
pub(crate) fn bm_put_u32(b: &mut BytesMut, v: u32)
    requires
        bytes_mut_view(*old(b)).len() + 4 <= isize::MAX,
    ensures
        bytes_mut_view(*final(b)) == bytes_mut_view(*old(b)) + be32(v),
{
    b.put_u32(v)
}

/// `BufMut::put_u64` on a `BytesMut`: appends the value in big-endian order.
#[verifier::external_body]
pub(crate) fn bm_put_u64(b: &mut BytesMut, v: u64)
    requires
        bytes_mut_view(*old(b)).len() + 8 <= isize::MAX,
    ensures
        bytes_mut_view(*final(b)) == bytes_mut_view(*old(b)) + be64(v),
{
    b.put_u64(v)
}

/// `BufMut::put_slice` on a `BytesMut`: appends the slice.
#[verifier::external_body]
pub(crate) fn bm_put_slice(b: &mut BytesMut, s: &[u8])
    requires
        bytes_mut_view(*old(b)).len() + s@.len() <= isize::MAX,
    ensures
        bytes_mut_view(*final(b)) == bytes_mut_view(*old(b)) + s@,
{
    b.put_slice(s)
}

/// `Buf::get_u8` on a `BytesMut`: removes and returns the first byte. It
/// panics on an empty buffer, which `requires` leaves out.
#[verifier::external_body]
pub(crate) fn bm_get_u8(b: &mut BytesMut) -> (res: u8)
    requires
        bytes_mut_view(*old(b)).len() >= 1,
    ensures
        res == bytes_mut_view(*old(b))[0],
        bytes_mut_view(*final(b)) == bytes_mut_view(*old(b)).skip(1),
{
    b.get_u8()
}

/// `Buf::get_u16` on a `BytesMut`: removes the first two bytes and returns
/// them read in big-endian order.
#[verifier::external_body]
pub(crate) fn bm_get_u16(b: &mut BytesMut) -> (res: u16)
    requires
        bytes_mut_view(*old(b)).len() >= 2,
    ensures
        res == read_be16(bytes_mut_view(*old(b)), 0),
        bytes_mut_view(*final(b)) == bytes_mut_view(*old(b)).skip(2),
{
    b.get_u16()
}

/// `Buf::get_u32` on a `BytesMut`: removes the first four bytes and returns
/// them read in big-endian order.
#[verifier::external_body]
pub(crate) fn bm_get_u32(b: &mut BytesMut) -> (res: u32)
    requires
        bytes_mut_view(*old(b)).len() >= 4,
    ensures
        res == read_be32(bytes_mut_view(*old(b)), 0),
        bytes_mut_view(*final(b)) == bytes_mut_view(*old(b)).skip(4),
{
    b.get_u32()
}

/// `Buf::get_u64` on a `BytesMut`: removes the first eight bytes and returns
/// them read in big-endian order.
#[verifier::external_body]
pub(crate) fn bm_get_u64(b: &mut BytesMut) -> (res: u64)
    requires
        bytes_mut_view(*old(b)).len() >= 8,
    ensures
        res == read_be64(bytes_mut_view(*old(b)), 0),
        bytes_mut_view(*final(b)) == bytes_mut_view(*old(b)).skip(8),
{
    b.get_u64()
}

/// `BytesMut::split_to`: the first `at` bytes move to the returned buffer,
/// the rest stay. It panics when `at` passes the length.
#[verifier::external_body]
pub(crate) fn bm_split_to(b: &mut BytesMut, at: usize) -> (res: BytesMut)
    requires
        at <= bytes_mut_view(*old(b)).len(),
    ensures
        bytes_mut_view(res) == bytes_mut_view(*old(b)).take(at as int),
        bytes_mut_view(*final(b)) == bytes_mut_view(*old(b)).skip(at as int),
{
    b.split_to(at)
}

/// `BytesMut::freeze`: the same bytes as an immutable `Bytes`.
#[verifier::external_body]
pub(crate) fn bm_freeze(b: BytesMut) -> (res: Bytes)
    ensures
        bytes_view(res) == bytes_mut_view(b),
{
    b.freeze()
}

/// The slice that a `BytesMut` dereferences to.
#[verifier::external_body]
pub(crate) fn bm_as_slice(b: &BytesMut) -> (res: &[u8])
    ensures
        res@ == bytes_mut_view(*b),
{
    b
}

/// `Bytes::new`: empty bytes.
#[verifier::external_body]
pub(crate) fn b_new() -> (res: Bytes)
    ensures
        bytes_view(res) == Seq::<u8>::empty(),
{
    Bytes::new()
}

/// `Clone` for `BytesMut`: a buffer with the same bytes.
pub assume_specification[ <BytesMut as Clone>::clone ](b: &BytesMut) -> (res: BytesMut)
    ensures
        bytes_mut_view(res) == bytes_mut_view(*b),
;

/// `Clone` for `Bytes`: another handle to the same bytes.
pub assume_specification[ <Bytes as Clone>::clone ](b: &Bytes) -> (res: Bytes)
    ensures
        bytes_view(res) == bytes_view(*b),
;

/// The slice that a `Bytes` dereferences to.
#[verifier::external_body]
pub(crate) fn b_as_slice(b: &Bytes) -> (res: &[u8])
    ensures
        res@ == bytes_view(*b),
{
    b
}

/// An empty buffer, to encode into.
pub fn buffer_new() -> (res: BytesMut)
    ensures
        bytes_mut_view(res) == Seq::<u8>::empty(),
{
    bm_new()
}

/// A buffer that holds the given bytes, to decode from.
pub fn buffer_from_slice(data: &[u8]) -> (res: BytesMut)
    requires
        data@.len() <= isize::MAX,
    ensures
        bytes_mut_view(res) == data@,
{
    let mut b = bm_new();
    bm_put_slice(&mut b, data);
    assert(Seq::<u8>::empty() + data@ =~= data@);
    b
}

/// The number of bytes that a buffer holds.
pub fn buffer_len(b: &BytesMut) -> (res: usize)
    ensures
        res == bytes_mut_view(*b).len(),
{
    bm_len(b)
}

/// The bytes that a buffer holds, as a slice.
pub fn buffer_bytes(b: &BytesMut) -> (res: &[u8])
    ensures
        res@ == bytes_mut_view(*b),
{
    bm_as_slice(b)
}

/// Immutable bytes holding the given bytes, for the fields of messages.
pub fn bytes_from_slice(data: &[u8]) -> (res: Bytes)
    requires
        data@.len() <= isize::MAX,
    ensures
        bytes_view(res) == data@,
{
    bm_freeze(buffer_from_slice(data))
}

} // verus!
