//! Big-endian 16-bit fields and the byte-buffer writes that build messages.
use bytes::BufMut;
use vstd::prelude::*;

verus! {

/// The two bytes of `n` in network (big-endian) order.
pub open spec fn be16_bytes(n: u16) -> Seq<u8> {
    seq![(n / 256) as u8, (n % 256) as u8]
}

/// The number that the big-endian byte pair `hi`, `lo` denotes.
pub open spec fn be16_value(hi: u8, lo: u8) -> u16 {
    (hi * 256 + lo) as u16
}

/// Reading back the bytes of a number gives the number.
pub proof fn lemma_be16_roundtrip(n: u16)
    ensures
        be16_value(be16_bytes(n)[0], be16_bytes(n)[1]) == n,
{
}

/// Decodes a big-endian byte pair.
pub fn be16_decode(hi: u8, lo: u8) -> (n: u16)
    ensures
        n == be16_value(hi, lo),
{
    assert(((hi as u16) << 8) as int == hi * 256 && hi * 256 + lo <= 0xffff) by (bit_vector);
    ((hi as u16) << 8) + lo as u16
}

/// The high byte of `n`, as `(n >> 8) as u8`.
pub fn be16_high(n: u16) -> (b: u8)
    ensures
        b == be16_bytes(n)[0],
{
    assert(((n >> 8) as u8) as int == n / 256) by (bit_vector);
    (n >> 8) as u8
}

/// The low byte of `n`, as `n as u8`.
pub fn be16_low(n: u16) -> (b: u8)
    ensures
        b == be16_bytes(n)[1],
{
    assert((n as u8) as int == n % 256) by (bit_vector);
    n as u8
}

/// `bytes::BufMut::put_u16` on a `Vec<u8>`: appends the two bytes of `n`
/// in big-endian order. The vector's length may not pass `isize::MAX`
/// (the allocation panics there).
#[verifier::external_body]
pub(crate) fn put_u16(buf: &mut Vec<u8>, n: u16)
    requires
        old(buf)@.len() + 2 <= isize::MAX,
    ensures
        final(buf)@ == old(buf)@ + be16_bytes(n),
{
    buf.put_u16(n)
}

/// `bytes::BufMut::put_u8` on a `Vec<u8>`: appends the byte `n`.
#[verifier::external_body]
pub(crate) fn put_u8(buf: &mut Vec<u8>, n: u8)
    requires
        old(buf)@.len() + 1 <= isize::MAX,
    ensures
        final(buf)@ == old(buf)@.push(n),
{
    buf.put_u8(n)
}

/// `bytes::BufMut::put` on a `Vec<u8>` with a byte slice as the source:
/// appends all bytes of `src` in order.
#[verifier::external_body]
pub(crate) fn put(buf: &mut Vec<u8>, src: &[u8])
    requires
        old(buf)@.len() + src@.len() <= isize::MAX,
    ensures
        final(buf)@ == old(buf)@ + src@,
{
    buf.put(src)
}

} // verus!
