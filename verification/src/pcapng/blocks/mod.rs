//! The blocks of a pcapng capture.

pub mod custom;
pub mod enhanced_packet;
pub mod interface_description;
pub mod raw;
pub mod section_header;
pub mod unknown;

use crate::endianness::Endianness;
use crate::errors::PcapError;
use crate::pcapng::state::{PcapNgState, SpecState};
use custom::{
    spec_custom_outcome, CustomBlock, CustomParserMap, PcapNgCustomParsers, SpecCustomBlock, CUSTOM_COPIABLE_BLOCK, CUSTOM_NON_COPIABLE_BLOCK,
};
use enhanced_packet::{
    spec_parse_enhanced_packet, EnhancedPacketBlock, SpecEnhancedPacket, ENHANCED_PACKET_BLOCK,
};
use interface_description::{
    spec_parse_interface_description, InterfaceDescriptionBlock, SpecInterfaceDescription,
    INTERFACE_DESCRIPTION_BLOCK,
};
use raw::{spec_parse_raw_block, RawBlock, SpecRawBlock};
use section_header::{
    spec_parse_section_header, SectionHeaderBlock, SpecSectionHeader, SECTION_HEADER_BLOCK,
};
use unknown::{SpecUnknownBlock, UnknownBlock};
use vstd::prelude::*;

verus! {

/// What a parser that returns the bytes after the item it read gave back, held
/// against its specification `expected` on the input `input`: on success the
/// item's model and the bytes after the `n` bytes taken, else the same error.
pub open spec fn parsed<'a, T: View>(
    input: Seq<u8>,
    r: Result<(&'a [u8], T), PcapError>,
    expected: Result<(int, T::V), PcapError>,
) -> bool {
    match expected {
        Ok((n, v)) => match r {
            Ok((rem, t)) => t@ == v && rem@ == input.subrange(n, input.len() as int),
            Err(_) => false,
        },
        Err(x) => r == Err::<(&'a [u8], T), PcapError>(x),
    }
}

/// The model of a parser's result with the bytes after the item: the number of
/// bytes taken from `input` and the item's model, or the error.
pub open spec fn parsed_view<'a, T: View>(input: Seq<u8>, r: Result<(&'a [u8], T), PcapError>) -> Result<
    (int, T::V),
    PcapError,
> {
    match r {
        Ok((rem, t)) => Ok((input.len() - rem@.len(), t@)),
        Err(x) => Err(x),
    }
}

/// A result with the bytes after the item, with the item by its model.
pub open spec fn rest_model<T: View>(r: Result<(Seq<u8>, T), PcapError>) -> Result<(Seq<u8>, T::V), PcapError> {
    match r {
        Ok((rest, t)) => Ok((rest, t@)),
        Err(x) => Err(x),
    }
}

/// Whether the bytes after the item in `r`, if any, are the end of `src`.
pub open spec fn rest_is_suffix<V>(src: Seq<u8>, r: Result<(Seq<u8>, V), PcapError>) -> bool {
    r matches Ok((rest, _)) ==> rest.len() <= src.len() && rest == src.subrange(
        src.len() - rest.len(),
        src.len() as int,
    )
}

/// A result with the bytes after the item, with those bytes given by the
/// number of bytes of `src` before them.
pub open spec fn rest_as_taken<V>(src: Seq<u8>, r: Result<(Seq<u8>, V), PcapError>) -> Result<(int, V), PcapError> {
    match r {
        Ok((rest, v)) => Ok((src.len() - rest.len(), v)),
        Err(x) => Err(x),
    }
}

/// The model of a result: the value's model, or the error.
pub open spec fn result_view<T: View>(r: Result<T, PcapError>) -> Result<T::V, PcapError> {
    match r {
        Ok(t) => Ok(t@),
        Err(x) => Err(x),
    }
}

/// A block of a pcapng capture.
pub enum Block {
    /// Section Header Block
    SectionHeader(SectionHeaderBlock),
    /// Interface Description Block
    InterfaceDescription(InterfaceDescriptionBlock),
    /// Enhanced Packet Block
    EnhancedPacket(EnhancedPacketBlock),
    /// Custom block that may be copied
    CustomCopiable(CustomBlock<true>),
    /// Custom block that must not be copied
    CustomNonCopiable(CustomBlock<false>),
    /// Block of another type
    Unknown(UnknownBlock),
}

/// Mathematical model of a [`Block`].
pub enum SpecBlock {
    SectionHeader(SpecSectionHeader),
    InterfaceDescription(SpecInterfaceDescription),
    EnhancedPacket(SpecEnhancedPacket),
    CustomCopiable(SpecCustomBlock),
    CustomNonCopiable(SpecCustomBlock),
    Unknown(SpecUnknownBlock),
}

impl View for Block {
    type V = SpecBlock;

    open spec fn view(&self) -> SpecBlock {
        match self {
            Block::SectionHeader(b) => SpecBlock::SectionHeader(b@),
            Block::InterfaceDescription(b) => SpecBlock::InterfaceDescription(b@),
            Block::EnhancedPacket(b) => SpecBlock::EnhancedPacket(b@),
            Block::CustomCopiable(b) => SpecBlock::CustomCopiable(b@),
            Block::CustomNonCopiable(b) => SpecBlock::CustomNonCopiable(b@),
            Block::Unknown(b) => SpecBlock::Unknown(b@),
        }
    }
}

/// The block that the body of `raw` holds, read in byte order `e`, or the
/// error, for a block that is not a custom block.
pub open spec fn spec_parse_block_body(e: Endianness, raw: SpecRawBlock) -> Result<SpecBlock, PcapError> {
    if raw.type_ == SECTION_HEADER_BLOCK {
        match spec_parse_section_header(raw.body) {
            Ok((_, b)) => Ok(SpecBlock::SectionHeader(b)),
            Err(x) => Err(x),
        }
    } else if raw.type_ == INTERFACE_DESCRIPTION_BLOCK {
        match spec_parse_interface_description(e, raw.body) {
            Ok((_, b)) => Ok(SpecBlock::InterfaceDescription(b)),
            Err(x) => Err(x),
        }
    } else if raw.type_ == ENHANCED_PACKET_BLOCK {
        match spec_parse_enhanced_packet(e, raw.body) {
            Ok((_, b)) => Ok(SpecBlock::EnhancedPacket(b)),
            Err(x) => Err(x),
        }
    } else {
        Ok(SpecBlock::Unknown(SpecUnknownBlock { type_: raw.type_, length: raw.initial_len, value: raw.body }))
    }
}

/// Whether `r` is a possible result of parsing the body of `raw` in byte order
/// `e` and state `st`, with `parsers` the registered custom payload parsers:
/// the block its type says, or the error. Of a custom block the registered
/// payload parser decides (see [`spec_custom_outcome`]); of any other block the
/// result is [`spec_parse_block_body`].
pub open spec fn spec_block_body_outcome(
    e: Endianness,
    st: SpecState,
    parsers: CustomParserMap,
    raw: SpecRawBlock,
    r: Result<SpecBlock, PcapError>,
) -> bool {
    if raw.type_ == CUSTOM_COPIABLE_BLOCK {
        spec_custom_outcome(e, st, parsers, raw.body, true, r)
    } else if raw.type_ == CUSTOM_NON_COPIABLE_BLOCK {
        spec_custom_outcome(e, st, parsers, raw.body, false, r)
    } else {
        r == spec_parse_block_body(e, raw)
    }
}

/// Whether `r` is a possible result of reading the block `raw`, which takes
/// `n` bytes: those `n` bytes and the block of its body, or the error.
pub open spec fn spec_raw_block_outcome(
    e: Endianness,
    st: SpecState,
    parsers: CustomParserMap,
    n: int,
    raw: SpecRawBlock,
    r: Result<(int, SpecBlock), PcapError>,
) -> bool {
    match r {
        Ok((m, b)) => m == n && spec_block_body_outcome(e, st, parsers, raw, Ok(b)),
        Err(x) => spec_block_body_outcome(e, st, parsers, raw, Err(x)),
    }
}

/// Whether `r` is a possible result of reading the block at the start of `s`
/// in byte order `e` and state `st`, with `parsers` the registered custom
/// payload parsers: the number of bytes it takes and the block, or the error.
pub open spec fn spec_block_outcome(
    e: Endianness,
    st: SpecState,
    parsers: CustomParserMap,
    s: Seq<u8>,
    r: Result<(int, SpecBlock), PcapError>,
) -> bool {
    match spec_parse_raw_block(e, s) {
        Ok((n, raw)) => spec_raw_block_outcome(e, st, parsers, n, raw, r),
        Err(x) => r == Err::<(int, SpecBlock), PcapError>(x),
    }
}

impl Block {
    /// Parses the block at the start of `slice` in byte order `e`, and returns
    /// the bytes after it with the block; the payload of a custom block is
    /// parsed by the parser that `parsers` holds for its number.
    pub fn from_slice<'a>(
        e: Endianness,
        state: &PcapNgState,
        parsers: &PcapNgCustomParsers,
        slice: &'a [u8],
    ) -> (r: Result<(&'a [u8], Block), PcapError>)
        ensures
            spec_block_outcome(e, state@, parsers@, slice@, parsed_view(slice@, r)),
            r matches Ok((rem, _)) ==> rem@ == slice@.subrange(slice@.len() - rem@.len(), slice@.len() as int),
    {
        match RawBlock::from_slice(e, slice) {
            Ok((rem, raw)) => match raw.try_into_block(e, state, parsers) {
                Ok(block) => Ok((rem, block)),
                Err(x) => Err(x),
            },
            Err(x) => Err(x),
        }
    }
}

} // verus!
