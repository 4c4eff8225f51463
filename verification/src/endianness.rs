//! Byte order of a pcapng section, and the fixed-width numbers read from and
//! written to the bytes of a capture in that byte order.

use byteorder_slice::byteorder::WriteBytesExt;
use byteorder_slice::{BigEndian, ByteOrder, LittleEndian};
use vstd::prelude::*;
use vstd::slice::slice_subrange;

verus! {

/// Byte order of the numbers of a section.
#[derive(Clone, Copy, Debug, PartialEq, Eq, Structural)]
pub enum Endianness {
    Big,
    Little,
}

/// The big-endian number held by the first two bytes of `s`.
pub open spec fn spec_u16_be(s: Seq<u8>) -> u16 {
    ((s[0] as u16) << 8) | (s[1] as u16)
}

/// The little-endian number held by the first two bytes of `s`.
pub open spec fn spec_u16_le(s: Seq<u8>) -> u16 {
    (s[0] as u16) | ((s[1] as u16) << 8)
}

/// The big-endian number held by the first four bytes of `s`.
pub open spec fn spec_u32_be(s: Seq<u8>) -> u32 {
    ((s[0] as u32) << 24) | ((s[1] as u32) << 16) | ((s[2] as u32) << 8) | (s[3] as u32)
}

/// The little-endian number held by the first four bytes of `s`.
pub open spec fn spec_u32_le(s: Seq<u8>) -> u32 {
    (s[0] as u32) | ((s[1] as u32) << 8) | ((s[2] as u32) << 16) | ((s[3] as u32) << 24)
}

/// The big-endian number held by the first eight bytes of `s`.
pub open spec fn spec_u64_be(s: Seq<u8>) -> u64 {
    ((s[0] as u64) << 56) | ((s[1] as u64) << 48) | ((s[2] as u64) << 40) | ((s[3] as u64) << 32)
        | ((s[4] as u64) << 24) | ((s[5] as u64) << 16) | ((s[6] as u64) << 8) | (s[7] as u64)
}

/// The little-endian number held by the first eight bytes of `s`.
pub open spec fn spec_u64_le(s: Seq<u8>) -> u64 {
    (s[0] as u64) | ((s[1] as u64) << 8) | ((s[2] as u64) << 16) | ((s[3] as u64) << 24)
        | ((s[4] as u64) << 32) | ((s[5] as u64) << 40) | ((s[6] as u64) << 48) | ((s[7] as u64)
        << 56)
}

/// The number held by the first two bytes of `s` in byte order `e`.
pub open spec fn spec_u16(e: Endianness, s: Seq<u8>) -> u16 {
    match e {
        Endianness::Big => spec_u16_be(s),
        Endianness::Little => spec_u16_le(s),
    }
}

/// The number held by the first four bytes of `s` in byte order `e`.
pub open spec fn spec_u32(e: Endianness, s: Seq<u8>) -> u32 {
    match e {
        Endianness::Big => spec_u32_be(s),
        Endianness::Little => spec_u32_le(s),
    }
}

/// The number held by the first eight bytes of `s` in byte order `e`.
pub open spec fn spec_u64(e: Endianness, s: Seq<u8>) -> u64 {
    match e {
        Endianness::Big => spec_u64_be(s),
        Endianness::Little => spec_u64_le(s),
    }
}

/// The four bytes of `n` in byte order `e`.
pub open spec fn spec_u32_bytes(e: Endianness, n: u32) -> Seq<u8> {
    match e {
        Endianness::Big => seq![
            ((n >> 24) & 0xff) as u8,
            ((n >> 16) & 0xff) as u8,
            ((n >> 8) & 0xff) as u8,
            (n & 0xff) as u8,
        ],
        Endianness::Little => seq![
            (n & 0xff) as u8,
            ((n >> 8) & 0xff) as u8,
            ((n >> 16) & 0xff) as u8,
            ((n >> 24) & 0xff) as u8,
        ],
    }
}

/// `BigEndian::read_u16` of byteorder: the big-endian number in the first two
/// bytes of `buf`; it panics on fewer than two bytes.
pub assume_specification[ <BigEndian as ByteOrder>::read_u16 ](buf: &[u8]) -> (r: u16)
    requires
        buf@.len() >= 2,
    ensures
        r == spec_u16_be(buf@),
;

/// `LittleEndian::read_u16` of byteorder: the little-endian number in the first
/// two bytes of `buf`; it panics on fewer than two bytes.
pub assume_specification[ <LittleEndian as ByteOrder>::read_u16 ](buf: &[u8]) -> (r: u16)
    requires
        buf@.len() >= 2,
    ensures
        r == spec_u16_le(buf@),
;

/// `BigEndian::read_u32` of byteorder: the big-endian number in the first four
/// bytes of `buf`; it panics on fewer than four bytes.
pub assume_specification[ <BigEndian as ByteOrder>::read_u32 ](buf: &[u8]) -> (r: u32)
    requires
        buf@.len() >= 4,
    ensures
        r == spec_u32_be(buf@),
;

/// `LittleEndian::read_u32` of byteorder: the little-endian number in the first
/// four bytes of `buf`; it panics on fewer than four bytes.
pub assume_specification[ <LittleEndian as ByteOrder>::read_u32 ](buf: &[u8]) -> (r: u32)
    requires
        buf@.len() >= 4,
    ensures
        r == spec_u32_le(buf@),
;

/// `BigEndian::read_u64` of byteorder: the big-endian number in the first eight
/// bytes of `buf`; it panics on fewer than eight bytes.
pub assume_specification[ <BigEndian as ByteOrder>::read_u64 ](buf: &[u8]) -> (r: u64)
    requires
        buf@.len() >= 8,
    ensures
        r == spec_u64_be(buf@),
;

/// `LittleEndian::read_u64` of byteorder: the little-endian number in the first
/// eight bytes of `buf`; it panics on fewer than eight bytes.
pub assume_specification[ <LittleEndian as ByteOrder>::read_u64 ](buf: &[u8]) -> (r: u64)
    requires
        buf@.len() >= 8,
    ensures
        r == spec_u64_le(buf@),
;

#[verifier::external_type_specification]
#[verifier::external_body]
pub struct ExIoError(std::io::Error);

/// `WriteBytesExt::write_u32::<BigEndian>` of byteorder on a `Vec<u8>`: appends
/// the four big-endian bytes of `n`. Writing into a `Vec<u8>` only appends and
/// does not fail, so the result is `Ok`.
#[verifier::external_body]
fn write_u32_be(writer: &mut Vec<u8>, n: u32) -> (r: std::io::Result<()>)
    ensures
        r is Ok,
        final(writer)@ == old(writer)@ + spec_u32_bytes(Endianness::Big, n),
{
    writer.write_u32::<BigEndian>(n)
}

/// `WriteBytesExt::write_u32::<LittleEndian>` of byteorder on a `Vec<u8>`:
/// appends the four little-endian bytes of `n`. Writing into a `Vec<u8>` only
/// appends and does not fail, so the result is `Ok`.
#[verifier::external_body]
fn write_u32_le(writer: &mut Vec<u8>, n: u32) -> (r: std::io::Result<()>)
    ensures
        r is Ok,
        final(writer)@ == old(writer)@ + spec_u32_bytes(Endianness::Little, n),
{
    writer.write_u32::<LittleEndian>(n)
}

/// Reads the two-byte number at `pos` in byte order `e`.
pub fn read_u16_at(e: Endianness, buf: &[u8], pos: usize) -> (r: u16)
    requires
        pos + 2 <= buf@.len(),
    ensures
        r == spec_u16(e, buf@.subrange(pos as int, pos + 2)),
{
    proof {
        vstd::slice::axiom_spec_len(buf);
    }
    let bytes = slice_subrange(buf, pos, pos + 2);
    match e {
        Endianness::Big => BigEndian::read_u16(bytes),
        Endianness::Little => LittleEndian::read_u16(bytes),
    }
}

/// Reads the four-byte number at `pos` in byte order `e`.
pub fn read_u32_at(e: Endianness, buf: &[u8], pos: usize) -> (r: u32)
    requires
        pos + 4 <= buf@.len(),
    ensures
        r == spec_u32(e, buf@.subrange(pos as int, pos + 4)),
{
    proof {
        vstd::slice::axiom_spec_len(buf);
    }
    let bytes = slice_subrange(buf, pos, pos + 4);
    match e {
        Endianness::Big => BigEndian::read_u32(bytes),
        Endianness::Little => LittleEndian::read_u32(bytes),
    }
}

/// Reads the eight-byte number at `pos` in byte order `e`.
pub fn read_u64_at(e: Endianness, buf: &[u8], pos: usize) -> (r: u64)
    requires
        pos + 8 <= buf@.len(),
    ensures
        r == spec_u64(e, buf@.subrange(pos as int, pos + 8)),
{
    proof {
        vstd::slice::axiom_spec_len(buf);
    }
    let bytes = slice_subrange(buf, pos, pos + 8);
    match e {
        Endianness::Big => BigEndian::read_u64(bytes),
        Endianness::Little => LittleEndian::read_u64(bytes),
    }
}

/// Appends the four bytes of `n` in byte order `e` to `writer`.
pub fn append_u32(e: Endianness, writer: &mut Vec<u8>, n: u32)
    ensures
        final(writer)@ == old(writer)@ + spec_u32_bytes(e, n),
{
    let _ = match e {
        Endianness::Big => write_u32_be(writer, n),
        Endianness::Little => write_u32_le(writer, n),
    };
}

/// Reading back the four bytes written for a number gives that number.
pub proof fn lemma_u32_bytes_roundtrip(e: Endianness, n: u32)
    ensures
        spec_u32_bytes(e, n).len() == 4,
        spec_u32(e, spec_u32_bytes(e, n)) == n,
{
    assert((((((n >> 24) & 0xff) as u8) as u32) << 24) | (((((n >> 16) & 0xff) as u8) as u32) << 16)
        | (((((n >> 8) & 0xff) as u8) as u32) << 8) | (((n & 0xff) as u8) as u32) == n)
        by (bit_vector);
    assert((((n & 0xff) as u8) as u32) | (((((n >> 8) & 0xff) as u8) as u32) << 8) | (((((n >> 16)
        & 0xff) as u8) as u32) << 16) | (((((n >> 24) & 0xff) as u8) as u32) << 24) == n)
        by (bit_vector);
}

/// The number held by the two bytes of `s` from index `i` in byte order `e`,
/// as positional arithmetic in base 256.
pub open spec fn num16(e: Endianness, s: Seq<u8>, i: int) -> int {
    match e {
        Endianness::Big => s[i] * 256 + s[i + 1],
        Endianness::Little => s[i] + s[i + 1] * 256,
    }
}

/// The number held by the four bytes of `s` from index `i` in byte order `e`,
/// as positional arithmetic in base 256.
pub open spec fn num32(e: Endianness, s: Seq<u8>, i: int) -> int {
    match e {
        Endianness::Big => s[i] * 16777216 + s[i + 1] * 65536 + s[i + 2] * 256 + s[i + 3],
        Endianness::Little => s[i] + s[i + 1] * 256 + s[i + 2] * 65536 + s[i + 3] * 16777216,
    }
}

/// Reading two bytes in a byte order gives their value in base 256, most
/// significant byte first for big-endian, last for little-endian.
pub proof fn lemma_u16_value(e: Endianness, s: Seq<u8>, i: int)
    requires
        0 <= i,
        i + 2 <= s.len(),
    ensures
        spec_u16(e, s.subrange(i, i + 2)) == num16(e, s, i),
{
    let b0 = s[i];
    let b1 = s[i + 1];
    assert(s.subrange(i, i + 2)[0] == b0 && s.subrange(i, i + 2)[1] == b1);
    assert(((b0 as u16) << 8) | (b1 as u16) == b0 * 256 + b1) by (bit_vector);
    assert((b0 as u16) | ((b1 as u16) << 8) == b0 + b1 * 256) by (bit_vector);
}

/// Reading four bytes in a byte order gives their value in base 256, most
/// significant byte first for big-endian, last for little-endian.
pub proof fn lemma_u32_value(e: Endianness, s: Seq<u8>, i: int)
    requires
        0 <= i,
        i + 4 <= s.len(),
    ensures
        spec_u32(e, s.subrange(i, i + 4)) == num32(e, s, i),
{
    let b0 = s[i];
    let b1 = s[i + 1];
    let b2 = s[i + 2];
    let b3 = s[i + 3];
    let t = s.subrange(i, i + 4);
    assert(t[0] == b0 && t[1] == b1 && t[2] == b2 && t[3] == b3);
    assert(((b0 as u32) << 24) | ((b1 as u32) << 16) | ((b2 as u32) << 8) | (b3 as u32) == b0 * 16777216
        + b1 * 65536 + b2 * 256 + b3) by (bit_vector);
    assert((b0 as u32) | ((b1 as u32) << 8) | ((b2 as u32) << 16) | ((b3 as u32) << 24) == b0 + b1 * 256
        + b2 * 65536 + b3 * 16777216) by (bit_vector);
}

/// The number held by the eight bytes of `s` from index `i` in byte order
/// `e`, as positional arithmetic in base 256.
pub open spec fn num64(e: Endianness, s: Seq<u8>, i: int) -> int {
    match e {
        Endianness::Big => num32(e, s, i) * 4294967296 + num32(e, s, i + 4),
        Endianness::Little => num32(e, s, i) + num32(e, s, i + 4) * 4294967296,
    }
}

/// Reading eight bytes in a byte order gives their value in base 256, most
/// significant byte first for big-endian, last for little-endian.
pub proof fn lemma_u64_value(e: Endianness, s: Seq<u8>, i: int)
    requires
        0 <= i,
        i + 8 <= s.len(),
    ensures
        spec_u64(e, s.subrange(i, i + 8)) == num64(e, s, i),
{
    let t = s.subrange(i, i + 8);
    let b0 = s[i];
    let b1 = s[i + 1];
    let b2 = s[i + 2];
    let b3 = s[i + 3];
    let b4 = s[i + 4];
    let b5 = s[i + 5];
    let b6 = s[i + 6];
    let b7 = s[i + 7];
    assert(t[0] == b0 && t[1] == b1 && t[2] == b2 && t[3] == b3 && t[4] == b4 && t[5] == b5 && t[6] == b6
        && t[7] == b7);
    assert(((b0 as u64) << 56) | ((b1 as u64) << 48) | ((b2 as u64) << 40) | ((b3 as u64) << 32) | ((b4 as u64)
        << 24) | ((b5 as u64) << 16) | ((b6 as u64) << 8) | (b7 as u64) == (b0 * 16777216 + b1 * 65536 + b2 * 256
        + b3) * 4294967296 + (b4 * 16777216 + b5 * 65536 + b6 * 256 + b7)) by (bit_vector);
    assert((b0 as u64) | ((b1 as u64) << 8) | ((b2 as u64) << 16) | ((b3 as u64) << 24) | ((b4 as u64) << 32)
        | ((b5 as u64) << 40) | ((b6 as u64) << 48) | ((b7 as u64) << 56) == (b0 + b1 * 256 + b2 * 65536 + b3
        * 16777216) + (b4 + b5 * 256 + b6 * 65536 + b7 * 16777216) * 4294967296) by (bit_vector);
}

} // verus!
