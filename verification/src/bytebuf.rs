//! Trusted wrappers around `bytebuffer::ByteBuffer`, the byte/bit buffer
//! that transaction frames are packed into.
//!
//! The buffer is modelled by `buffer_bits`, the stream of bits appended to it
//! so far, most significant bit first. The wrappers below only ever append:
//! `write_u8`/`write_u16`/`write_u32` append whole big-endian values on a
//! byte boundary, and `write_bits` appends the low `n` bits of a value. With
//! the buffer byte-aligned, `as_bytes` returns exactly the bytes assembled
//! from that stream.

use crate::bits::{bits_to_bytes, low_bits, u16_bits, u32_bits, u8_bits};
use vstd::prelude::*;

verus! {

#[verifier::external_type_specification]
#[verifier::external_body]
pub struct ExByteBuffer(bytebuffer::ByteBuffer);

/// The stream of bits appended to the buffer so far, most significant first.
pub uninterp spec fn buffer_bits(b: bytebuffer::ByteBuffer) -> Seq<bool>;

/// Relies on `bytebuffer::ByteBuffer::new`: a fresh buffer holds no data.
#[verifier::external_body]
pub(crate) fn buffer_new() -> (b: bytebuffer::ByteBuffer)
    ensures
        buffer_bits(b) == Seq::<bool>::empty(),
{
    bytebuffer::ByteBuffer::new()
}

/// Relies on `bytebuffer::ByteBuffer::write_u8`: on a byte-aligned buffer it
/// appends the eight bits of the byte.
#[verifier::external_body]
pub(crate) fn buffer_write_u8(b: &mut bytebuffer::ByteBuffer, val: u8)
    requires
        buffer_bits(*old(b)).len() % 8 == 0,
    ensures
        buffer_bits(*final(b)) == buffer_bits(*old(b)) + u8_bits(val),
{
    b.write_u8(val)
}

/// Relies on `bytebuffer::ByteBuffer::write_u16`: on a byte-aligned buffer
/// with its default big-endian order it appends the sixteen bits of the
/// value, most significant first.
#[verifier::external_body]
pub(crate) fn buffer_write_u16(b: &mut bytebuffer::ByteBuffer, val: u16)
    requires
        buffer_bits(*old(b)).len() % 8 == 0,
    ensures
        buffer_bits(*final(b)) == buffer_bits(*old(b)) + u16_bits(val),
{
    b.write_u16(val)
}

/// Relies on `bytebuffer::ByteBuffer::write_u32`: on a byte-aligned buffer
/// with its default big-endian order it appends the thirty-two bits of the
/// value, most significant first.
#[verifier::external_body]
pub(crate) fn buffer_write_u32(b: &mut bytebuffer::ByteBuffer, val: u32)
    requires
        buffer_bits(*old(b)).len() % 8 == 0,
    ensures
        buffer_bits(*final(b)) == buffer_bits(*old(b)) + u32_bits(val),
{
    b.write_u32(val)
}

/// Relies on `bytebuffer::ByteBuffer::write_bits`: appends the low `n` bits
/// of `val`, most significant first.
#[verifier::external_body]
pub(crate) fn buffer_write_bits(b: &mut bytebuffer::ByteBuffer, val: u64, n: u8)
    requires
        n <= 64,
    ensures
        buffer_bits(*final(b)) == buffer_bits(*old(b)) + low_bits(val, n as nat),
{
    b.write_bits(val, n)
}

/// Relies on `bytebuffer::ByteBuffer::as_bytes`: a byte-aligned, append-only
/// buffer holds exactly the bytes assembled from its bit stream.
#[verifier::external_body]
pub(crate) fn buffer_to_bytes(b: &bytebuffer::ByteBuffer) -> (r: Vec<u8>)
    requires
        buffer_bits(*b).len() % 8 == 0,
    ensures
        r@ == bits_to_bytes(buffer_bits(*b)),
{
    b.as_bytes().to_vec()
}

} // verus!
