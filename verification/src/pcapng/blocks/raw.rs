//! Framing of the blocks of a capture: type, total length, body, total length again.

use super::custom::{CustomBlock, PcapNgCustomParsers, CUSTOM_COPIABLE_BLOCK, CUSTOM_NON_COPIABLE_BLOCK};
use super::enhanced_packet::{EnhancedPacketBlock, ENHANCED_PACKET_BLOCK};
use super::interface_description::{InterfaceDescriptionBlock, INTERFACE_DESCRIPTION_BLOCK};
use super::section_header::{
    SectionHeaderBlock, BYTE_ORDER_MAGIC_BIG, BYTE_ORDER_MAGIC_LITTLE, SECTION_HEADER_BLOCK,
};
use super::unknown::UnknownBlock;
use super::{parsed, result_view, spec_block_body_outcome, Block};
use crate::endianness::{read_u32_at, spec_u32, spec_u32_be, Endianness};
use crate::errors::PcapError;
use crate::pcapng::state::PcapNgState;
use vstd::prelude::*;
use vstd::slice::{slice_subrange, slice_to_vec};

verus! {

/// A block whose body is not parsed yet.
#[derive(Debug, PartialEq, Eq)]
pub struct RawBlock {
    /// Block type.
    pub type_: u32,
    /// Total length of the block, read before the body.
    pub initial_len: u32,
    /// Body of the block.
    pub body: Vec<u8>,
    /// Total length of the block, read after the body.
    pub trailer_len: u32,
}

/// Mathematical model of a [`RawBlock`].
pub struct SpecRawBlock {
    pub type_: u32,
    pub initial_len: u32,
    pub body: Seq<u8>,
    pub trailer_len: u32,
}

impl View for RawBlock {
    type V = SpecRawBlock;

    open spec fn view(&self) -> SpecRawBlock {
        SpecRawBlock {
            type_: self.type_,
            initial_len: self.initial_len,
            body: self.body@,
            trailer_len: self.trailer_len,
        }
    }
}

/// Parse of a block of type `type_` and total length `initial_len` from `s`,
/// whose first 8 bytes (type and length) are already read, in byte order `e`.
pub open spec fn spec_raw_block_inner(e: Endianness, s: Seq<u8>, type_: u32, initial_len: u32) -> Result<
    (int, SpecRawBlock),
    PcapError,
> {
    if initial_len % 4 != 0 {
        Err(PcapError::InvalidField("Block: (initial_len % 4) != 0"))
    } else if initial_len < 12 {
        Err(PcapError::InvalidField("Block: initial_len < 12"))
    } else if s.len() < initial_len {
        Err(PcapError::IncompleteBuffer)
    } else {
        let trailer_len = spec_u32(e, s.subrange(initial_len - 4, initial_len as int));
        if trailer_len != initial_len {
            Err(PcapError::InvalidField("Block: initial_length != trailer_length"))
        } else {
            Ok((
                initial_len as int,
                SpecRawBlock { type_, initial_len, body: s.subrange(8, initial_len - 4), trailer_len },
            ))
        }
    }
}

/// Parse of the block at the start of `s` in byte order `e`: the number of
/// bytes it takes and the block, or the error. A Section Header Block gives its
/// own byte order by its byte-order magic, which overrides `e`.
pub open spec fn spec_parse_raw_block(e: Endianness, s: Seq<u8>) -> Result<(int, SpecRawBlock), PcapError> {
    if s.len() < 12 {
        Err(PcapError::IncompleteBuffer)
    } else {
        let type_ = spec_u32(e, s.subrange(0, 4));
        if type_ == SECTION_HEADER_BLOCK {
            let magic = spec_u32_be(s.subrange(8, 12));
            if magic == BYTE_ORDER_MAGIC_BIG {
                spec_raw_block_inner(Endianness::Big, s, type_, spec_u32(Endianness::Big, s.subrange(4, 8)))
            } else if magic == BYTE_ORDER_MAGIC_LITTLE {
                spec_raw_block_inner(Endianness::Little, s, type_, spec_u32(Endianness::Little, s.subrange(4, 8)))
            } else {
                Err(PcapError::InvalidField("SectionHeaderBlock: invalid magic number"))
            }
        } else {
            spec_raw_block_inner(e, s, type_, spec_u32(e, s.subrange(4, 8)))
        }
    }
}

/// A block that parses takes exactly its total length, which is a multiple of
/// 4, at least 12 and no more than the bytes given; the body is what lies
/// between the two length fields, and the two lengths agree.
pub proof fn lemma_raw_block_framing(e: Endianness, s: Seq<u8>)
    ensures
        spec_parse_raw_block(e, s) matches Ok((n, raw)) ==> {
            &&& n == raw.initial_len
            &&& n % 4 == 0
            &&& 12 <= n <= s.len()
            &&& raw.trailer_len == raw.initial_len
            &&& raw.body == s.subrange(8, n - 4)
            &&& raw.body.len() == n - 12
        },
{
}

/// Parsing looks at the bytes of one block only: a block that parses from `s`
/// parses the same, taking the same bytes, from `s` followed by any `t`; and
/// when `s` is cut short inside a block that parses from `s + t`, the answer on
/// `s` is [`PcapError::IncompleteBuffer`], the call for more data.
pub proof fn lemma_raw_block_prefix(e: Endianness, s: Seq<u8>, t: Seq<u8>)
    ensures
        spec_parse_raw_block(e, s) is Ok ==> spec_parse_raw_block(e, s + t) == spec_parse_raw_block(e, s),
        spec_parse_raw_block(e, s + t) matches Ok((n, _)) && s.len() < n ==> spec_parse_raw_block(e, s)
            == Err::<(int, SpecRawBlock), PcapError>(PcapError::IncompleteBuffer),
{
    let st = s + t;
    if s.len() >= 12 {
        assert(st.subrange(0, 4) =~= s.subrange(0, 4));
        assert(st.subrange(4, 8) =~= s.subrange(4, 8));
        assert(st.subrange(8, 12) =~= s.subrange(8, 12));
        if let Ok((n, raw)) = spec_parse_raw_block(e, s) {
            lemma_raw_block_framing(e, s);
            assert(st.subrange(n - 4, n) =~= s.subrange(n - 4, n));
            assert(st.subrange(8, n - 4) =~= s.subrange(8, n - 4));
        }
    }
}

impl RawBlock {
    /// Parses the block at the start of `slice` in byte order `e`, and returns
    /// the bytes after it with the block.
    pub fn from_slice<'a>(e: Endianness, slice: &'a [u8]) -> (r: Result<(&'a [u8], RawBlock), PcapError>)
        ensures
            parsed(slice@, r, spec_parse_raw_block(e, slice@)),
    {
        if slice.len() < 12 {
            return Err(PcapError::IncompleteBuffer);
        }
        let type_ = read_u32_at(e, slice, 0);
        if type_ == SECTION_HEADER_BLOCK {
            // The byte order of a section header is given by its own magic.
            let magic = read_u32_at(Endianness::Big, slice, 8);
            if magic == BYTE_ORDER_MAGIC_BIG {
                let initial_len = read_u32_at(Endianness::Big, slice, 4);
                Self::from_slice_inner(Endianness::Big, slice, type_, initial_len)
            } else if magic == BYTE_ORDER_MAGIC_LITTLE {
                let initial_len = read_u32_at(Endianness::Little, slice, 4);
                Self::from_slice_inner(Endianness::Little, slice, type_, initial_len)
            } else {
                Err(PcapError::InvalidField("SectionHeaderBlock: invalid magic number"))
            }
        } else {
            let initial_len = read_u32_at(e, slice, 4);
            Self::from_slice_inner(e, slice, type_, initial_len)
        }
    }

    /// Reads the body and the trailing length of a block whose type and
    /// initial length are already read.
    fn from_slice_inner<'a>(e: Endianness, slice: &'a [u8], type_: u32, initial_len: u32) -> (r: Result<
        (&'a [u8], RawBlock),
        PcapError,
    >)
        requires
            slice@.len() >= 12,
        ensures
            parsed(slice@, r, spec_raw_block_inner(e, slice@, type_, initial_len)),
    {
        if initial_len % 4 != 0 {
            return Err(PcapError::InvalidField("Block: (initial_len % 4) != 0"));
        }
        if initial_len < 12 {
            return Err(PcapError::InvalidField("Block: initial_len < 12"));
        }
        let len = slice.len();
        let block_len = initial_len as usize;
        if len < block_len {
            return Err(PcapError::IncompleteBuffer);
        }
        let trailer_len = read_u32_at(e, slice, block_len - 4);
        if trailer_len != initial_len {
            return Err(PcapError::InvalidField("Block: initial_length != trailer_length"));
        }
        let body = slice_to_vec(slice_subrange(slice, 8, block_len - 4));
        let rem = slice_subrange(slice, block_len, len);
        Ok((rem, RawBlock { type_, initial_len, body, trailer_len }))
    }

    /// Parses the body of this block, in byte order `e`, as the block that its
    /// type says; the payload of a custom block by the parser that `parsers`
    /// holds for its number.
    pub fn try_into_block(self, e: Endianness, state: &PcapNgState, parsers: &PcapNgCustomParsers) -> (r: Result<
        Block,
        PcapError,
    >)
        ensures
            spec_block_body_outcome(e, state@, parsers@, self@, result_view(r)),
    {
        let body = self.body.as_slice();
        if self.type_ == SECTION_HEADER_BLOCK {
            match SectionHeaderBlock::from_slice(body) {
                Ok((_, b)) => Ok(Block::SectionHeader(b)),
                Err(x) => Err(x),
            }
        } else if self.type_ == INTERFACE_DESCRIPTION_BLOCK {
            match InterfaceDescriptionBlock::from_slice(e, body) {
                Ok((_, b)) => Ok(Block::InterfaceDescription(b)),
                Err(x) => Err(x),
            }
        } else if self.type_ == ENHANCED_PACKET_BLOCK {
            match EnhancedPacketBlock::from_slice(e, body) {
                Ok((_, b)) => Ok(Block::EnhancedPacket(b)),
                Err(x) => Err(x),
            }
        } else if self.type_ == CUSTOM_COPIABLE_BLOCK {
            match CustomBlock::<true>::from_slice(e, state, parsers, body) {
                Ok((_, b)) => Ok(b.into_block()),
                Err(x) => Err(x),
            }
        } else if self.type_ == CUSTOM_NON_COPIABLE_BLOCK {
            match CustomBlock::<false>::from_slice(e, state, parsers, body) {
                Ok((_, b)) => Ok(b.into_block()),
                Err(x) => Err(x),
            }
        } else {
            Ok(Block::Unknown(UnknownBlock { type_: self.type_, length: self.initial_len, value: self.body }))
        }
    }
}

} // verus!
