//! Fixed-width numbers in little-endian byte order.
//!
//! The byte shuffling itself is `byteorder`'s; this module says what it
//! amounts to, in plain arithmetic, and proves that what is written reads
//! back.

use byteorder::ByteOrder;
use byteorder::LittleEndian;
use vstd::prelude::*;

verus! {

/// The two bytes of `v`, lowest first.
pub open spec fn le_u16(v: u16) -> Seq<u8> {
    seq![(v % 256) as u8, (v / 256) as u8]
}

/// The four bytes of `v`, lowest first.
pub open spec fn le_u32(v: u32) -> Seq<u8> {
    seq![
        (v % 256) as u8,
        (v / 0x100 % 256) as u8,
        (v / 0x1_0000 % 256) as u8,
        (v / 0x100_0000) as u8,
    ]
}

/// The eight bytes of `v`, lowest first: the low half as four bytes, then
/// the high half.
pub open spec fn le_u64(v: u64) -> Seq<u8> {
    le_u32((v % 0x1_0000_0000) as u32) + le_u32((v / 0x1_0000_0000) as u32)
}

/// The number whose lowest byte is `b[0]` and whose highest is `b[1]`.
pub open spec fn from_le_u16(b: Seq<u8>) -> u16
    recommends
        b.len() >= 2,
{
    (b[0] + 0x100 * b[1]) as u16
}

/// The number that the first four bytes of `b` spell, lowest byte first.
pub open spec fn from_le_u32(b: Seq<u8>) -> u32
    recommends
        b.len() >= 4,
{
    (b[0] + 0x100 * b[1] + 0x1_0000 * b[2] + 0x100_0000 * b[3]) as u32
}

/// The number that the first eight bytes of `b` spell, lowest byte first:
/// the first four are its low half, the next four its high half.
pub open spec fn from_le_u64(b: Seq<u8>) -> u64
    recommends
        b.len() >= 8,
{
    (from_le_u32(b) + 0x1_0000_0000 * from_le_u32(b.skip(4))) as u64
}

/// The two's-complement bit pattern of `v`.
pub open spec fn bits_of_i8(v: i8) -> u8 {
    if v >= 0 {
        v as u8
    } else {
        (v + 0x100) as u8
    }
}

/// The two's-complement bit pattern of `v`.
pub open spec fn bits_of_i16(v: i16) -> u16 {
    if v >= 0 {
        v as u16
    } else {
        (v + 0x1_0000) as u16
    }
}

/// The two's-complement bit pattern of `v`.
pub open spec fn bits_of_i32(v: i32) -> u32 {
    if v >= 0 {
        v as u32
    } else {
        (v + 0x1_0000_0000) as u32
    }
}

/// The two's-complement bit pattern of `v`.
pub open spec fn bits_of_i64(v: i64) -> u64 {
    if v >= 0 {
        v as u64
    } else {
        (v + 0x1_0000_0000_0000_0000) as u64
    }
}

/// The signed number whose two's-complement bit pattern is `u`.
pub open spec fn i8_of_bits(u: u8) -> i8 {
    if u < 0x80 {
        u as i8
    } else {
        (u - 0x100) as i8
    }
}

/// The signed number whose two's-complement bit pattern is `u`.
pub open spec fn i16_of_bits(u: u16) -> i16 {
    if u < 0x8000 {
        u as i16
    } else {
        (u - 0x1_0000) as i16
    }
}

/// The signed number whose two's-complement bit pattern is `u`.
pub open spec fn i32_of_bits(u: u32) -> i32 {
    if u < 0x8000_0000 {
        u as i32
    } else {
        (u - 0x1_0000_0000) as i32
    }
}

/// The signed number whose two's-complement bit pattern is `u`.
pub open spec fn i64_of_bits(u: u64) -> i64 {
    if u < 0x8000_0000_0000_0000 {
        u as i64
    } else {
        (u - 0x1_0000_0000_0000_0000) as i64
    }
}

/// The four bytes of a signed `v`, lowest first.
pub open spec fn le_i32(v: i32) -> Seq<u8> {
    le_u32(bits_of_i32(v))
}

/// The signed number that the first four bytes of `b` spell.
pub open spec fn from_le_i32(b: Seq<u8>) -> i32
    recommends
        b.len() >= 4,
{
    i32_of_bits(from_le_u32(b))
}

/// `byteorder::LittleEndian::read_u16`: the first two bytes of the buffer,
/// read as a number with the low byte first. The call panics on a shorter
/// buffer, which the precondition rules out.
#[verifier::external_body]
pub(crate) fn le_read_u16(buf: &[u8]) -> (n: u16)
    requires
        buf@.len() >= 2,
    ensures
        n == from_le_u16(buf@),
{
    LittleEndian::read_u16(buf)
}

/// `byteorder::LittleEndian::read_u32`: the first four bytes of the buffer,
/// read as a number with the low byte first. The call panics on a shorter
/// buffer, which the precondition rules out.
#[verifier::external_body]
pub(crate) fn le_read_u32(buf: &[u8]) -> (n: u32)
    requires
        buf@.len() >= 4,
    ensures
        n == from_le_u32(buf@),
{
    LittleEndian::read_u32(buf)
}

/// `byteorder::LittleEndian::read_u64`: the first eight bytes of the buffer,
/// read as a number with the low byte first. The call panics on a shorter
/// buffer, which the precondition rules out.
#[verifier::external_body]
pub(crate) fn le_read_u64(buf: &[u8]) -> (n: u64)
    requires
        buf@.len() >= 8,
    ensures
        n == from_le_u64(buf@),
{
    LittleEndian::read_u64(buf)
}

/// `byteorder::LittleEndian::write_u16`: overwrites the first two bytes of
/// the buffer with those of `n`, low byte first, and leaves the rest alone.
/// The call panics on a shorter buffer, which the precondition rules out.
#[verifier::external_body]
pub(crate) fn le_write_u16(buf: &mut [u8], n: u16)
    requires
        old(buf)@.len() >= 2,
    ensures
        final(buf)@ == le_u16(n) + old(buf)@.skip(2),
{
    LittleEndian::write_u16(buf, n)
}

/// `byteorder::LittleEndian::write_u32`: overwrites the first four bytes of
/// the buffer with those of `n`, low byte first, and leaves the rest alone.
/// The call panics on a shorter buffer, which the precondition rules out.
#[verifier::external_body]
pub(crate) fn le_write_u32(buf: &mut [u8], n: u32)
    requires
        old(buf)@.len() >= 4,
    ensures
        final(buf)@ == le_u32(n) + old(buf)@.skip(4),
{
    LittleEndian::write_u32(buf, n)
}

/// `byteorder::LittleEndian::write_u64`: overwrites the first eight bytes of
/// the buffer with those of `n`, low byte first, and leaves the rest alone.
/// The call panics on a shorter buffer, which the precondition rules out.
#[verifier::external_body]
pub(crate) fn le_write_u64(buf: &mut [u8], n: u64)
    requires
        old(buf)@.len() >= 8,
    ensures
        final(buf)@ == le_u64(n) + old(buf)@.skip(8),
{
    LittleEndian::write_u64(buf, n)
}

/// The bit pattern of a signed byte.
pub fn i8_bits(v: i8) -> (u: u8)
    ensures
        u == bits_of_i8(v),
{
    assert(v as u8 == if v >= 0 {
        v as u8
    } else {
        (v + 0x100) as u8
    }) by (bit_vector);
    v as u8
}

/// The bit pattern of a signed 16-bit number.
pub fn i16_bits(v: i16) -> (u: u16)
    ensures
        u == bits_of_i16(v),
{
    assert(v as u16 == if v >= 0 {
        v as u16
    } else {
        (v + 0x1_0000) as u16
    }) by (bit_vector);
    v as u16
}

/// The bit pattern of a signed 32-bit number.
pub fn i32_bits(v: i32) -> (u: u32)
    ensures
        u == bits_of_i32(v),
{
    assert(v as u32 == if v >= 0 {
        v as u32
    } else {
        (v + 0x1_0000_0000) as u32
    }) by (bit_vector);
    v as u32
}

/// The bit pattern of a signed 64-bit number.
pub fn i64_bits(v: i64) -> (u: u64)
    ensures
        u == bits_of_i64(v),
{
    assert(v as u64 == if v >= 0 {
        v as u64
    } else {
        (v + 0x1_0000_0000_0000_0000) as u64
    }) by (bit_vector);
    v as u64
}

/// The signed byte with the given bit pattern.
pub fn bits_i8(u: u8) -> (v: i8)
    ensures
        v == i8_of_bits(u),
{
    assert(u as i8 == if u < 0x80 {
        u as i8
    } else {
        (u - 0x100) as i8
    }) by (bit_vector);
    u as i8
}

/// The signed 16-bit number with the given bit pattern.
pub fn bits_i16(u: u16) -> (v: i16)
    ensures
        v == i16_of_bits(u),
{
    assert(u as i16 == if u < 0x8000 {
        u as i16
    } else {
        (u - 0x1_0000) as i16
    }) by (bit_vector);
    u as i16
}

/// The signed 32-bit number with the given bit pattern.
pub fn bits_i32(u: u32) -> (v: i32)
    ensures
        v == i32_of_bits(u),
{
    assert(u as i32 == if u < 0x8000_0000 {
        u as i32
    } else {
        (u - 0x1_0000_0000) as i32
    }) by (bit_vector);
    u as i32
}

/// The signed 64-bit number with the given bit pattern.
pub fn bits_i64(u: u64) -> (v: i64)
    ensures
        v == i64_of_bits(u),
{
    assert(u as i64 == if u < 0x8000_0000_0000_0000 {
        u as i64
    } else {
        (u - 0x1_0000_0000_0000_0000) as i64
    }) by (bit_vector);
    u as i64
}

/// Two bytes written low byte first read back as the number they came from,
/// whatever follows them.
pub proof fn lemma_u16_reads_back(v: u16, rest: Seq<u8>)
    ensures
        le_u16(v).len() == 2,
        from_le_u16(le_u16(v) + rest) == v,
        (le_u16(v) + rest).skip(2) == rest,
{
    let b = le_u16(v) + rest;
    assert(b[0] == le_u16(v)[0] && b[1] == le_u16(v)[1]);
    assert(v == (v % 256) + 0x100 * (v / 256)) by (bit_vector);
    assert(b.skip(2) =~= rest);
}

/// Four bytes written low byte first read back as the number they came from,
/// whatever follows them.
pub proof fn lemma_u32_reads_back(v: u32, rest: Seq<u8>)
    ensures
        le_u32(v).len() == 4,
        from_le_u32(le_u32(v) + rest) == v,
        (le_u32(v) + rest).skip(4) == rest,
{
    let w = le_u32(v);
    let b = w + rest;
    assert(b[0] == w[0] && b[1] == w[1] && b[2] == w[2] && b[3] == w[3]);
    assert(v == (v % 256) + 0x100 * (v / 0x100 % 256) + 0x1_0000 * (v / 0x1_0000 % 256)
        + 0x100_0000 * (v / 0x100_0000)) by (bit_vector);
    assert(v / 0x100_0000 < 256) by (bit_vector);
    assert(b.skip(4) =~= rest);
}

/// Eight bytes written low byte first read back as the number they came
/// from, whatever follows them.
pub proof fn lemma_u64_reads_back(v: u64, rest: Seq<u8>)
    ensures
        le_u64(v).len() == 8,
        from_le_u64(le_u64(v) + rest) == v,
        (le_u64(v) + rest).skip(8) == rest,
{
    let low = (v % 0x1_0000_0000) as u32;
    let high = (v / 0x1_0000_0000) as u32;
    let b = le_u64(v) + rest;
    lemma_u32_reads_back(low, le_u32(high) + rest);
    lemma_u32_reads_back(high, rest);
    assert(b =~= le_u32(low) + (le_u32(high) + rest));
    assert(b.skip(4) =~= le_u32(high) + rest);
    assert(b.skip(8) =~= rest);
}

/// Reading two bytes and writing the number back gives the same two bytes.
pub proof fn lemma_u16_writes_back(b: Seq<u8>)
    requires
        b.len() >= 2,
    ensures
        le_u16(from_le_u16(b)) == b.take(2),
{
    let (b0, b1) = (b[0], b[1]);
    let v = from_le_u16(b);
    assert(v % 256 == b0 && v / 256 == b1) by (bit_vector)
        requires
            v == b0 + 0x100 * b1,
    ;
    assert(le_u16(v) =~= b.take(2));
}

/// Reading four bytes and writing the number back gives the same four bytes.
pub proof fn lemma_u32_writes_back(b: Seq<u8>)
    requires
        b.len() >= 4,
    ensures
        le_u32(from_le_u32(b)) == b.take(4),
{
    let (b0, b1, b2, b3) = (b[0], b[1], b[2], b[3]);
    let v = from_le_u32(b);
    assert(v % 256 == b0 && v / 0x100 % 256 == b1 && v / 0x1_0000 % 256 == b2 && v / 0x100_0000
        == b3) by (bit_vector)
        requires
            v == b0 + 0x100 * b1 + 0x1_0000 * b2 + 0x100_0000 * b3,
    ;
    assert(le_u32(v) =~= b.take(4));
}

/// Reading eight bytes and writing the number back gives the same eight
/// bytes.
pub proof fn lemma_u64_writes_back(b: Seq<u8>)
    requires
        b.len() >= 8,
    ensures
        le_u64(from_le_u64(b)) == b.take(8),
{
    let low = from_le_u32(b);
    let high = from_le_u32(b.skip(4));
    let v = from_le_u64(b);
    assert((v % 0x1_0000_0000) as u32 == low && (v / 0x1_0000_0000) as u32 == high);
    lemma_u32_writes_back(b);
    lemma_u32_writes_back(b.skip(4));
    assert(b.take(4) + b.skip(4).take(4) =~= b.take(8));
}

/// A signed number and its bit pattern stand for each other, at every width.
pub proof fn lemma_bits_invert()
    ensures
        forall|v: i8| i8_of_bits(#[trigger] bits_of_i8(v)) == v,
        forall|v: i16| i16_of_bits(#[trigger] bits_of_i16(v)) == v,
        forall|v: i32| i32_of_bits(#[trigger] bits_of_i32(v)) == v,
        forall|v: i64| i64_of_bits(#[trigger] bits_of_i64(v)) == v,
        forall|u: u8| bits_of_i8(#[trigger] i8_of_bits(u)) == u,
        forall|u: u16| bits_of_i16(#[trigger] i16_of_bits(u)) == u,
        forall|u: u32| bits_of_i32(#[trigger] i32_of_bits(u)) == u,
        forall|u: u64| bits_of_i64(#[trigger] i64_of_bits(u)) == u,
{
}

} // verus!
