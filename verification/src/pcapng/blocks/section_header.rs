//! Section Header Block.

use crate::endianness::{
    lemma_u16_value, lemma_u32_value, lemma_u64_value, num16, num64, read_u16_at, read_u32_at, read_u64_at, spec_u16, spec_u32_be, spec_u64,
    Endianness,
};
use crate::errors::PcapError;
use super::parsed;
use vstd::prelude::*;
use vstd::slice::{slice_subrange, slice_to_vec};

verus! {

/// Block type of a Section Header Block.
pub const SECTION_HEADER_BLOCK: u32 = 0x0A0D0D0A;

/// Byte-order magic of a section, as read in big-endian order from a big-endian section.
pub const BYTE_ORDER_MAGIC_BIG: u32 = 0x1A2B3C4D;

/// Byte-order magic of a section, as read in big-endian order from a little-endian section.
pub const BYTE_ORDER_MAGIC_LITTLE: u32 = 0x4D3C2B1A;

/// Section Header Block: it opens a section and gives the byte order of its blocks.
#[derive(Debug, PartialEq, Eq)]
pub struct SectionHeaderBlock {
    /// Byte order of the section.
    pub endianness: Endianness,
    /// Major version of the format.
    pub major_version: u16,
    /// Minor version of the format.
    pub minor_version: u16,
    /// Length in bytes of the section after this block, -1 when not given.
    pub section_length: i64,
    /// Bytes of the options of the block.
    pub options: Vec<u8>,
}

/// Mathematical model of a [`SectionHeaderBlock`].
pub struct SpecSectionHeader {
    pub endianness: Endianness,
    pub major_version: u16,
    pub minor_version: u16,
    pub section_length: i64,
    pub options: Seq<u8>,
}

impl View for SectionHeaderBlock {
    type V = SpecSectionHeader;

    open spec fn view(&self) -> SpecSectionHeader {
        SpecSectionHeader {
            endianness: self.endianness,
            major_version: self.major_version,
            minor_version: self.minor_version,
            section_length: self.section_length,
            options: self.options@,
        }
    }
}

/// The section header in force before any block was read.
pub open spec fn spec_default_section_header() -> SpecSectionHeader {
    SpecSectionHeader {
        endianness: Endianness::Big,
        major_version: 1,
        minor_version: 0,
        section_length: -1i64,
        options: Seq::empty(),
    }
}

/// Section header whose byte order is `e`, read from the body `s`.
pub open spec fn spec_section_header_fields(e: Endianness, s: Seq<u8>) -> SpecSectionHeader {
    SpecSectionHeader {
        endianness: e,
        major_version: spec_u16(e, s.subrange(4, 6)),
        minor_version: spec_u16(e, s.subrange(6, 8)),
        section_length: spec_u64(e, s.subrange(8, 16)) as i64,
        options: s.subrange(16, s.len() as int),
    }
}

/// Parse of the body of a Section Header Block: the number of bytes it takes
/// (all of them) and the block, or the error.
pub open spec fn spec_parse_section_header(s: Seq<u8>) -> Result<(int, SpecSectionHeader), PcapError> {
    if s.len() < 16 {
        Err(PcapError::InvalidField("SectionHeaderBlock: block length < 16"))
    } else {
        let magic = spec_u32_be(s.subrange(0, 4));
        if magic == BYTE_ORDER_MAGIC_BIG {
            Ok((s.len() as int, spec_section_header_fields(Endianness::Big, s)))
        } else if magic == BYTE_ORDER_MAGIC_LITTLE {
            Ok((s.len() as int, spec_section_header_fields(Endianness::Little, s)))
        } else {
            Err(PcapError::InvalidField("SectionHeaderBlock: invalid magic number"))
        }
    }
}

/// The byte order of a Section Header Block is the one its magic is written
/// in: with the bytes 1A 2B 3C 4D first the block is big-endian, with 4D 3C 2B
/// 1A little-endian, and its versions are the numbers of bytes 4..6 (major)
/// and 6..8 (minor) in that byte order, its section length the 64-bit number
/// of bytes 8..16 in that byte order taken as two's complement; the options
/// are the bytes from 16 on. Any other first four bytes are refused.
pub proof fn lemma_section_header_byte_order(s: Seq<u8>)
    requires
        s.len() >= 16,
    ensures
        s[0] == 0x1A && s[1] == 0x2B && s[2] == 0x3C && s[3] == 0x4D ==> (spec_parse_section_header(s) matches Ok((n, h))
            && n == s.len() && h.endianness == Endianness::Big && h.major_version == num16(Endianness::Big, s, 4)
            && h.minor_version == num16(Endianness::Big, s, 6) && h.options == s.subrange(16, s.len() as int)),
        s[0] == 0x4D && s[1] == 0x3C && s[2] == 0x2B && s[3] == 0x1A ==> (spec_parse_section_header(s) matches Ok((n, h))
            && n == s.len() && h.endianness == Endianness::Little && h.major_version == num16(Endianness::Little, s, 4)
            && h.minor_version == num16(Endianness::Little, s, 6) && h.options == s.subrange(16, s.len() as int)),
        spec_parse_section_header(s) matches Ok((_, h)) ==> h.section_length == (if num64(h.endianness, s, 8)
            < 0x8000000000000000 {
            num64(h.endianness, s, 8)
        } else {
            num64(h.endianness, s, 8) - 0x10000000000000000
        }),
        !(s[0] == 0x1A && s[1] == 0x2B && s[2] == 0x3C && s[3] == 0x4D) && !(s[0] == 0x4D && s[1] == 0x3C && s[2]
            == 0x2B && s[3] == 0x1A) ==> spec_parse_section_header(s) == Err::<(int, SpecSectionHeader), PcapError>(
            PcapError::InvalidField("SectionHeaderBlock: invalid magic number"),
        ),
{
    lemma_u32_value(Endianness::Big, s, 0);
    lemma_u16_value(Endianness::Big, s, 4);
    lemma_u16_value(Endianness::Big, s, 6);
    lemma_u16_value(Endianness::Little, s, 4);
    lemma_u16_value(Endianness::Little, s, 6);
    lemma_u64_value(Endianness::Big, s, 8);
    lemma_u64_value(Endianness::Little, s, 8);
    let xb = spec_u64(Endianness::Big, s.subrange(8, 16));
    let xl = spec_u64(Endianness::Little, s.subrange(8, 16));
    assert((xb as i64) == (if xb < 0x8000000000000000u64 { xb as int } else { xb - 0x10000000000000000int }))
        by (bit_vector);
    assert((xl as i64) == (if xl < 0x8000000000000000u64 { xl as int } else { xl - 0x10000000000000000int }))
        by (bit_vector);
}

impl SectionHeaderBlock {
    /// Parses the body of a Section Header Block. Its byte order is found from
    /// the byte-order magic, whatever the byte order of the section before it.
    pub fn from_slice<'a>(slice: &'a [u8]) -> (r: Result<(&'a [u8], SectionHeaderBlock), PcapError>)
        ensures
            parsed(slice@, r, spec_parse_section_header(slice@)),
    {
        let len = slice.len();
        if len < 16 {
            return Err(PcapError::InvalidField("SectionHeaderBlock: block length < 16"));
        }
        let magic = read_u32_at(Endianness::Big, slice, 0);
        let endianness = if magic == BYTE_ORDER_MAGIC_BIG {
            Endianness::Big
        } else if magic == BYTE_ORDER_MAGIC_LITTLE {
            Endianness::Little
        } else {
            return Err(PcapError::InvalidField("SectionHeaderBlock: invalid magic number"));
        };
        let major_version = read_u16_at(endianness, slice, 4);
        let minor_version = read_u16_at(endianness, slice, 6);
        let section_length = read_u64_at(endianness, slice, 8) as i64;
        let options = slice_to_vec(slice_subrange(slice, 16, len));
        let rem = slice_subrange(slice, len, len);
        Ok((rem, SectionHeaderBlock { endianness, major_version, minor_version, section_length, options }))
    }

    /// A block equal to this one.
    pub fn duplicate(&self) -> (r: SectionHeaderBlock)
        ensures
            r@ == self@,
    {
        SectionHeaderBlock {
            endianness: self.endianness,
            major_version: self.major_version,
            minor_version: self.minor_version,
            section_length: self.section_length,
            options: slice_to_vec(self.options.as_slice()),
        }
    }
}

impl Default for SectionHeaderBlock {
    fn default() -> (r: SectionHeaderBlock)
        ensures
            r@ == spec_default_section_header(),
    {
        SectionHeaderBlock {
            endianness: Endianness::Big,
            major_version: 1,
            minor_version: 0,
            section_length: -1,
            options: Vec::new(),
        }
    }
}

} // verus!
