//! Parser of a pcapng capture held in a slice of bytes.

use crate::endianness::Endianness;
use crate::errors::PcapError;
use crate::pcapng::blocks::custom::{
    spec_custom_pen, spec_reader_outcome, CustomParserMap, CustomReaderFor, PcapNgCustom, PcapNgCustomParsers,
    PcapNgCustomReader, CUSTOM_COPIABLE_BLOCK, CUSTOM_NON_COPIABLE_BLOCK,
};
use crate::pcapng::blocks::enhanced_packet::EnhancedPacketBlock;
use crate::pcapng::blocks::interface_description::InterfaceDescriptionBlock;
use crate::pcapng::blocks::raw::{
    lemma_raw_block_framing, lemma_raw_block_prefix, spec_parse_raw_block, RawBlock, SpecRawBlock,
};
use crate::pcapng::blocks::section_header::SectionHeaderBlock;
use crate::pcapng::blocks::{
    parsed, parsed_view, rest_as_taken, rest_is_suffix, rest_model, spec_block_outcome,
    spec_parse_block_body, spec_raw_block_outcome, Block, SpecBlock,
};
use crate::pcapng::state::{
    spec_default_state, spec_update_from_block, spec_update_from_blocks, spec_update_from_raw_block,
    PcapNgState, SpecState,
};
use crate::read_buffer::Parser;
use core::marker::PhantomData;
use vstd::prelude::*;

verus! {

/// Parses a PcapNg from a slice of bytes.
///
/// You can match on [`PcapError::IncompleteBuffer`] to know if the parser need more data.
pub struct PcapNgParser {
    /// Current state of the pcapng format.
    state: PcapNgState,
    /// Payload parsers of custom blocks, by Private Enterprise Number.
    custom_parsers: PcapNgCustomParsers,
}

/// Mathematical model of a [`PcapNgParser`]: the state of the capture and the
/// registered payload parser of each Private Enterprise Number.
pub struct SpecParser {
    pub state: SpecState,
    pub custom_parsers: CustomParserMap,
}

impl View for PcapNgParser {
    type V = SpecParser;

    closed spec fn view(&self) -> SpecParser {
        SpecParser { state: self.state@, custom_parsers: self.custom_parsers@ }
    }
}

/// The first block of `src`, read in big-endian order while no custom payload
/// parser is registered: the number of bytes it takes and the block, or the error.
pub open spec fn spec_first_block(src: Seq<u8>) -> Result<(int, SpecBlock), PcapError> {
    match spec_parse_raw_block(Endianness::Big, src) {
        Ok((n, raw)) => if raw.type_ == CUSTOM_COPIABLE_BLOCK || raw.type_ == CUSTOM_NON_COPIABLE_BLOCK {
            if raw.body.len() < 4 {
                Err(PcapError::UnexpectedEof)
            } else {
                Err(PcapError::UnknownPEN(spec_custom_pen(Endianness::Big, raw.body)))
            }
        } else {
            match spec_parse_block_body(Endianness::Big, raw) {
                Ok(b) => Ok((n, b)),
                Err(x) => Err(x),
            }
        },
        Err(x) => Err(x),
    }
}

/// What creating a parser on `src` gives: the number of bytes of the first
/// block and the parser after it, with no payload parser registered, or the
/// error. The first block must be a Section Header Block.
pub open spec fn spec_parser_new(src: Seq<u8>) -> Result<(int, SpecParser), PcapError> {
    match spec_first_block(src) {
        Ok((n, b)) => if b is SectionHeader {
            Ok((n, SpecParser { state: spec_update_from_block(spec_default_state(), b), custom_parsers: Map::empty() }))
        } else {
            Err(PcapError::InvalidField("PcapNg: SectionHeader invalid or missing"))
        },
        Err(x) => Err(x),
    }
}

/// What reading the next unparsed block of `src` in byte order `e` does in
/// state `st`: the state after it, and the number of bytes of the block with
/// the block, or the error.
pub open spec fn spec_next_raw_block_in(st: SpecState, e: Endianness, src: Seq<u8>) -> (SpecState, Result<
    (int, SpecRawBlock),
    PcapError,
>) {
    match spec_parse_raw_block(e, src) {
        Ok((n, raw)) => match spec_update_from_raw_block(st, e, raw) {
            Ok(st2) => (st2, Ok((n, raw))),
            Err(x) => (st, Err(x)),
        },
        Err(x) => (st, Err(x)),
    }
}

/// What reading the next unparsed block of `src` does in state `st`, in the
/// byte order of its section.
pub open spec fn spec_next_raw_block(st: SpecState, src: Seq<u8>) -> (SpecState, Result<
    (int, SpecRawBlock),
    PcapError,
>) {
    spec_next_raw_block_in(st, st.section.endianness, src)
}

/// Whether `r` is a possible result of reading the next block of `src` in state
/// `st`, with `parsers` the registered custom payload parsers: the number of
/// bytes of the block and the block, or the error. The body is parsed in the
/// state after the unparsed block.
pub open spec fn spec_next_block_outcome(
    st: SpecState,
    parsers: CustomParserMap,
    src: Seq<u8>,
    r: Result<(int, SpecBlock), PcapError>,
) -> bool {
    match spec_next_raw_block(st, src) {
        (st2, Ok((n, raw))) => spec_raw_block_outcome(st.section.endianness, st2, parsers, n, raw, r),
        (_, Err(x)) => r == Err::<(int, SpecBlock), PcapError>(x),
    }
}

/// The state after a block was read, or kept as it was on an error.
pub open spec fn spec_state_after(st: SpecState, r: Result<(int, SpecBlock), PcapError>) -> SpecState {
    match r {
        Ok((_, b)) => spec_update_from_block(st, b),
        Err(_) => st,
    }
}

/// Reading the next block with [`PcapNgParser::next_block`] is reading it
/// with `next_item` of [`Parser`] and then updating the state with
/// `update_state`: the same possible results, and the state after the block
/// read; on an error, the state unchanged.
pub proof fn lemma_next_block_is_next_item_then_update(
    st: SpecState,
    parsers: CustomParserMap,
    src: Seq<u8>,
    r: Result<(int, SpecBlock), PcapError>,
)
    ensures
        spec_next_block_outcome(st, parsers, src, r) <==> spec_block_outcome(
            st.section.endianness,
            st,
            parsers,
            src,
            r,
        ),
        spec_next_block_outcome(st, parsers, src, r) ==> spec_next_raw_block(st, src).0 == spec_state_after(
            st,
            r,
        ),
{
}

/// The next block depends only on its own bytes: when it is read from `src`,
/// the same block is read, with the same state after it, from `src` followed by
/// any `more`; and when `src` ends inside a block that `src + more` holds, the
/// parser answers [`PcapError::IncompleteBuffer`] and its state is unchanged.
pub proof fn lemma_next_block_prefix(
    st: SpecState,
    parsers: CustomParserMap,
    src: Seq<u8>,
    more: Seq<u8>,
    r: Result<(int, SpecBlock), PcapError>,
)
    ensures
        spec_next_raw_block(st, src).1 is Ok ==> spec_next_raw_block(st, src + more) == spec_next_raw_block(st, src)
            && (spec_next_block_outcome(st, parsers, src + more, r) <==> spec_next_block_outcome(st, parsers, src, r)),
        spec_next_raw_block(st, src + more).1 matches Ok((n, _)) && src.len() < n ==> spec_next_raw_block(st, src)
            == (st, Err::<(int, SpecRawBlock), PcapError>(PcapError::IncompleteBuffer))
            && (spec_next_block_outcome(st, parsers, src, r) <==> r == Err::<(int, SpecBlock), PcapError>(
            PcapError::IncompleteBuffer,
        )),
{
    lemma_raw_block_prefix(st.section.endianness, src, more);
}

/// Each block read takes at least 12 bytes, a multiple of 4, and no more
/// than the bytes given: reading block after block reaches the end of the data.
pub proof fn lemma_next_block_progress(
    st: SpecState,
    parsers: CustomParserMap,
    src: Seq<u8>,
    r: Result<(int, SpecBlock), PcapError>,
)
    ensures
        spec_next_block_outcome(st, parsers, src, r) ==> (r matches Ok((n, _)) ==> 12 <= n <= src.len() && n
            % 4 == 0),
{
    lemma_raw_block_framing(st.section.endianness, src);
}

/// Whether reading the blocks `bs` one after the other, from state `st`, with
/// `srcs[i]` the bytes given to the `i`-th read, is a possible run of
/// successful [`PcapNgParser::next_block`] calls.
pub open spec fn spec_blocks_read(
    st: SpecState,
    parsers: CustomParserMap,
    srcs: Seq<Seq<u8>>,
    bs: Seq<SpecBlock>,
) -> bool
    decreases bs.len(),
{
    if bs.len() == 0 {
        srcs.len() == 0
    } else {
        &&& srcs.len() == bs.len()
        &&& spec_blocks_read(st, parsers, srcs.drop_last(), bs.drop_last())
        &&& exists|n: int|
            #[trigger] spec_next_block_outcome(
                spec_update_from_blocks(st, bs.drop_last()),
                parsers,
                srcs.last(),
                Ok((n, bs.last())),
            )
    }
}

/// After any run of successful block reads, the parser's state is the state
/// after those blocks: its section is the last section header read, and its
/// interfaces the interface descriptions read since it (see
/// `lemma_state_after_blocks`).
pub proof fn lemma_state_after_reads(
    st: SpecState,
    parsers: CustomParserMap,
    srcs: Seq<Seq<u8>>,
    bs: Seq<SpecBlock>,
    n: int,
)
    requires
        spec_blocks_read(st, parsers, srcs, bs),
        bs.len() > 0,
        spec_next_block_outcome(spec_update_from_blocks(st, bs.drop_last()), parsers, srcs.last(), Ok((n, bs.last()))),
    ensures
        spec_next_raw_block(spec_update_from_blocks(st, bs.drop_last()), srcs.last()).0 == spec_update_from_blocks(
            st,
            bs,
        ),
{
    lemma_next_block_is_next_item_then_update(
        spec_update_from_blocks(st, bs.drop_last()),
        parsers,
        srcs.last(),
        Ok((n, bs.last())),
    );
}

/// The state that `state` of [`Parser`] returns is the parser's state, the
/// same for blocks and for unparsed blocks.
pub proof fn lemma_state_is_parser_state<'a>(p: PcapNgParser)
    ensures
        <PcapNgParser as Parser<'a, Block, PcapNgState>>::spec_state(&p)@ == p@.state,
        <PcapNgParser as Parser<'a, RawBlock, PcapNgState>>::spec_state(&p)@ == p@.state,
{
}

impl PcapNgParser {
    /// Creates a new [`PcapNgParser`].
    ///
    /// Parses the first block which must be a valid SectionHeaderBlock.
    pub fn new(src: &[u8]) -> (r: Result<(&[u8], Self), PcapError>)
        ensures
            parsed(src@, r, spec_parser_new(src@)),
    {
        // Always use BigEndian here because we can't know the SectionHeaderBlock endianness
        let mut state = PcapNgState::default();

        let custom_parsers = PcapNgCustomParsers::new();

        let (rem, block) = match Block::from_slice(Endianness::Big, &state, &custom_parsers, src) {
            Ok(x) => x,
            Err(x) => return Err(x),
        };

        if !matches!(&block, Block::SectionHeader(_)) {
            return Err(PcapError::InvalidField("PcapNg: SectionHeader invalid or missing"));
        };

        match state.update_from_block(&block) {
            Ok(()) => {},
            Err(x) => return Err(x),
        }

        let parser = PcapNgParser { state, custom_parsers };

        Ok((rem, parser))
    }

    /// Registers a new custom payload type with the registry: the payloads of
    /// the custom blocks numbered `pen` are then parsed by `T::from_slice`.
    pub fn register<T: PcapNgCustomReader + 'static>(&mut self, pen: u32)
        ensures
            final(self)@.state == old(self)@.state,
            final(self)@.custom_parsers.dom() == old(self)@.custom_parsers.dom().insert(pen),
            final(self)@.custom_parsers.remove(pen) == old(self)@.custom_parsers.remove(pen),
            final(self)@.custom_parsers[pen].parser === Box::new(CustomReaderFor::<T> { marker: PhantomData }),
            forall|st: SpecState, s: Seq<u8>, o: Result<(Seq<u8>, Box<dyn PcapNgCustom>), PcapError>|
                #[trigger] final(self)@.custom_parsers[pen].parser.parse_outcome(st, s, o)
                    <==> spec_reader_outcome::<T>(st, s, o),
    {
        self.custom_parsers.register::<T>(pen);
    }

    /// Returns the remainder and the next [`Block`].
    pub fn next_block<'a>(&mut self, src: &'a [u8]) -> (r: Result<(&'a [u8], Block), PcapError>)
        ensures
            final(self)@.state == spec_next_raw_block(old(self)@.state, src@).0,
            final(self)@.custom_parsers == old(self)@.custom_parsers,
            spec_next_block_outcome(old(self)@.state, old(self)@.custom_parsers, src@, parsed_view(src@, r)),
            r matches Ok((rem, _)) ==> rem@ == src@.subrange(src@.len() - rem@.len(), src@.len() as int),
    {
        // Read next Block
        let endianness = self.state.section.endianness;
        let (rem, raw_block) = match self.next_raw_block_inner(endianness, src) {
            Ok(x) => x,
            Err(x) => return Err(x),
        };
        match raw_block.try_into_block(endianness, &self.state, &self.custom_parsers) {
            Ok(block) => Ok((rem, block)),
            Err(x) => Err(x),
        }
    }

    /// Returns the remainder and the next [`RawBlock`].
    pub fn next_raw_block<'a>(&mut self, src: &'a [u8]) -> (r: Result<(&'a [u8], RawBlock), PcapError>)
        ensures
            final(self)@.state == spec_next_raw_block(old(self)@.state, src@).0,
            final(self)@.custom_parsers == old(self)@.custom_parsers,
            parsed(src@, r, spec_next_raw_block(old(self)@.state, src@).1),
    {
        // Read next Block
        let endianness = self.state.section.endianness;
        self.next_raw_block_inner(endianness, src)
    }

    /// Inner function to parse the next raw block.
    fn next_raw_block_inner<'a>(&mut self, endianness: Endianness, src: &'a [u8]) -> (r: Result<
        (&'a [u8], RawBlock),
        PcapError,
    >)
        ensures
            final(self)@.state == spec_next_raw_block_in(old(self)@.state, endianness, src@).0,
            final(self)@.custom_parsers == old(self)@.custom_parsers,
            parsed(src@, r, spec_next_raw_block_in(old(self)@.state, endianness, src@).1),
    {
        let (rem, raw_block) = match RawBlock::from_slice(endianness, src) {
            Ok(x) => x,
            Err(x) => return Err(x),
        };
        match self.state.update_from_raw_block(endianness, &raw_block) {
            Ok(()) => {},
            Err(x) => return Err(x),
        }
        Ok((rem, raw_block))
    }

    /// Returns the current [`SectionHeaderBlock`].
    pub fn section(&self) -> (r: &SectionHeaderBlock)
        ensures
            r@ == self@.state.section,
    {
        &self.state.section
    }

    /// Returns all the current [`InterfaceDescriptionBlock`].
    pub fn interfaces(&self) -> (r: &[InterfaceDescriptionBlock])
        ensures
            r@.map_values(|i: InterfaceDescriptionBlock| i@) == self@.state.interfaces,
    {
        self.state.interfaces.as_slice()
    }

    /// Returns the [`InterfaceDescriptionBlock`] corresponding to the given packet.
    pub fn packet_interface(&self, packet: &EnhancedPacketBlock) -> (r: Option<&InterfaceDescriptionBlock>)
        ensures
            r is Some <==> packet.interface_id < self@.state.interfaces.len(),
            r matches Some(i) ==> i@ == self@.state.interfaces[packet.interface_id as int],
    {
        let id = packet.interface_id as usize;
        if id < self.state.interfaces.len() {
            Some(&self.state.interfaces[id])
        } else {
            None
        }
    }
}

impl<'a> Parser<'a, PcapNgParser, ()> for () {
    open spec fn next_item_outcome(&self, src: Seq<u8>, r: Result<(Seq<u8>, PcapNgParser), PcapError>) -> bool {
        rest_is_suffix(src, r) && rest_as_taken(src, rest_model(r)) == spec_parser_new(src)
    }

    open spec fn update_state_outcome(&self, item: PcapNgParser, after: (), r: Result<(), PcapError>) -> bool {
        r is Ok
    }

    open spec fn spec_state(&self) -> () {
        ()
    }

    fn next_item(&self, src: &'a [u8]) -> (r: Result<(&'a [u8], PcapNgParser), PcapError>) {
        PcapNgParser::new(src)
    }

    fn update_state(&mut self, _item: &PcapNgParser) -> (r: Result<(), PcapError>) {
        Ok(())
    }

    fn state(&self) -> &() {
        &()
    }
}

impl<'a> Parser<'a, Block, PcapNgState> for PcapNgParser {
    open spec fn next_item_outcome(&self, src: Seq<u8>, r: Result<(Seq<u8>, Block), PcapError>) -> bool {
        rest_is_suffix(src, r) && spec_block_outcome(
            self@.state.section.endianness,
            self@.state,
            self@.custom_parsers,
            src,
            rest_as_taken(src, rest_model(r)),
        )
    }

    open spec fn update_state_outcome(&self, item: Block, after: PcapNgParser, r: Result<(), PcapError>) -> bool {
        &&& r is Ok
        &&& after@.state == spec_update_from_block(self@.state, item@)
        &&& after@.custom_parsers == self@.custom_parsers
    }

    closed spec fn spec_state(&self) -> PcapNgState {
        self.state
    }

    fn next_item(&self, src: &'a [u8]) -> (r: Result<(&'a [u8], Block), PcapError>) {
        Block::from_slice(self.state.section.endianness, &self.state, &self.custom_parsers, src)
    }

    fn update_state(&mut self, block: &Block) -> (r: Result<(), PcapError>) {
        self.state.update_from_block(block)
    }

    fn state(&self) -> &PcapNgState {
        &self.state
    }
}

impl<'a> Parser<'a, RawBlock, PcapNgState> for PcapNgParser {
    open spec fn next_item_outcome(&self, src: Seq<u8>, r: Result<(Seq<u8>, RawBlock), PcapError>) -> bool {
        rest_is_suffix(src, r) && rest_as_taken(src, rest_model(r)) == spec_parse_raw_block(
            self@.state.section.endianness,
            src,
        )
    }

    open spec fn update_state_outcome(&self, item: RawBlock, after: PcapNgParser, r: Result<(), PcapError>) -> bool {
        &&& after@.custom_parsers == self@.custom_parsers
        &&& match spec_update_from_raw_block(self@.state, self@.state.section.endianness, item@) {
            Ok(st) => r is Ok && after@.state == st,
            Err(x) => r == Err::<(), PcapError>(x) && after@.state == self@.state,
        }
    }

    closed spec fn spec_state(&self) -> PcapNgState {
        self.state
    }

    fn next_item(&self, src: &'a [u8]) -> (r: Result<(&'a [u8], RawBlock), PcapError>) {
        RawBlock::from_slice(self.state.section.endianness, src)
    }

    fn update_state(&mut self, block: &RawBlock) -> (r: Result<(), PcapError>) {
        let endianness = self.state.section.endianness;
        self.state.update_from_raw_block(endianness, block)
    }

    fn state(&self) -> &PcapNgState {
        &self.state
    }
}

} // verus!
