//! Custom Block.

use super::{Block, SpecBlock};
use crate::endianness::{append_u32, lemma_u32_bytes_roundtrip, read_u32_at, spec_u32, spec_u32_bytes, Endianness};
use crate::errors::PcapError;
use crate::pcapng::state::{PcapNgState, SpecState};
use crate::read_buffer::rest_view;
use core::marker::PhantomData;
use std::collections::HashMap;
use vstd::prelude::*;
use vstd::slice::slice_subrange;

verus! {

broadcast use vstd::std_specs::hash::group_hash_axioms;

/// Block type of a custom block that may be copied to a new file.
pub const CUSTOM_COPIABLE_BLOCK: u32 = 0x00000BAD;

/// Block type of a custom block that must not be copied to a new file.
pub const CUSTOM_NON_COPIABLE_BLOCK: u32 = 0x40000BAD;

/// Custom block
pub struct CustomBlock<const COPIABLE: bool> {
    /// Private Enterprise Number of the entity which defined this block.
    pub pen: u32,
    /// Payload of this block.
    pub payload: Box<dyn PcapNgCustom>,
}

/// Mathematical model of a [`CustomBlock`]: its number. The payload is an
/// object of a type that the application defines; contracts speak of it as
/// that object (`===`) or by the relations of its trait.
pub struct SpecCustomBlock {
    pub pen: u32,
}

impl<const COPIABLE: bool> View for CustomBlock<COPIABLE> {
    type V = SpecCustomBlock;

    open spec fn view(&self) -> SpecCustomBlock {
        SpecCustomBlock { pen: self.pen }
    }
}

/// A payload parser as the registry holds it.
pub struct RegisteredParser {
    /// The parser of the payloads.
    pub parser: Box<dyn PcapNgCustomBlockParser>,
}

/// The registered payload parser of each Private Enterprise Number.
pub type CustomParserMap = Map<u32, RegisteredParser>;

/// The Private Enterprise Number at the start of the body `s` of a custom block, in byte order `e`.
pub open spec fn spec_custom_pen(e: Endianness, s: Seq<u8>) -> u32 {
    spec_u32(e, s.subrange(0, 4))
}

/// The block, of the copiable kind or not, with number `pen`, that a payload
/// parser's result `o` gives, or the parser's error as it is.
pub open spec fn spec_custom_block_from(
    pen: u32,
    copiable: bool,
    o: Result<(Seq<u8>, Box<dyn PcapNgCustom>), PcapError>,
) -> Result<SpecBlock, PcapError> {
    match o {
        Ok(_) => if copiable {
            Ok(SpecBlock::CustomCopiable(SpecCustomBlock { pen }))
        } else {
            Ok(SpecBlock::CustomNonCopiable(SpecCustomBlock { pen }))
        },
        Err(x) => Err(x),
    }
}

/// Whether `r` is a possible result of parsing the body `s` of a custom block,
/// of the copiable kind or not, in byte order `e`, in state `st`, with
/// `parsers` the registered payload parsers. A body shorter than a number is
/// `UnexpectedEof`; an unregistered number is `UnknownPEN` with that number;
/// otherwise the result is what the parser registered for the number gives on
/// the bytes after it: a block with that number, or the parser's error.
pub open spec fn spec_custom_outcome(
    e: Endianness,
    st: SpecState,
    parsers: CustomParserMap,
    s: Seq<u8>,
    copiable: bool,
    r: Result<SpecBlock, PcapError>,
) -> bool {
    if s.len() < 4 {
        r == Err::<SpecBlock, PcapError>(PcapError::UnexpectedEof)
    } else if !parsers.contains_key(spec_custom_pen(e, s)) {
        r == Err::<SpecBlock, PcapError>(PcapError::UnknownPEN(spec_custom_pen(e, s)))
    } else {
        exists|o: Result<(Seq<u8>, Box<dyn PcapNgCustom>), PcapError>|
            #[trigger] parsers[spec_custom_pen(e, s)].parser.parse_outcome(st, s.subrange(4, s.len() as int), o)
                && r == spec_custom_block_from(spec_custom_pen(e, s), copiable, o)
    }
}

/// The value of `written_len` on what a payload's `write_to` returned.
pub open spec fn spec_written_len(payload_written: Result<usize, PcapError>) -> Result<usize, PcapError> {
    match payload_written {
        Ok(n) => if n <= usize::MAX - 4 {
            Ok((n + 4) as usize)
        } else {
            Err(PcapError::InvalidField("CustomBlock: length overflow"))
        },
        Err(x) => Err(x),
    }
}

/// A custom block body whose number has no registered payload parser is
/// answered `UnknownPEN` with that number and nothing else; a block is only
/// ever read from a body whose number is registered, and it carries that number.
pub proof fn lemma_custom_block_needs_registration(
    e: Endianness,
    st: SpecState,
    parsers: CustomParserMap,
    s: Seq<u8>,
    copiable: bool,
    r: Result<SpecBlock, PcapError>,
)
    requires
        s.len() >= 4,
    ensures
        !parsers.contains_key(spec_custom_pen(e, s)) ==> (spec_custom_outcome(e, st, parsers, s, copiable, r)
            <==> r == Err::<SpecBlock, PcapError>(PcapError::UnknownPEN(spec_custom_pen(e, s)))),
        spec_custom_outcome(e, st, parsers, s, copiable, r) && r is Ok ==> parsers.contains_key(
            spec_custom_pen(e, s),
        ) && (r matches Ok(SpecBlock::CustomCopiable(b)) ==> copiable && b.pen == spec_custom_pen(e, s))
            && (r matches Ok(SpecBlock::CustomNonCopiable(b)) ==> !copiable && b.pen == spec_custom_pen(e, s)),
{
}

/// Reading back the body that `write_to` wrote for a block, followed by any
/// bytes `tail`: the number read is the block's, and when a parser is
/// registered for it, that parser is handed exactly the bytes that the payload
/// wrote of itself followed by `tail`.
pub proof fn lemma_custom_block_write_then_read(
    e: Endianness,
    st: SpecState,
    parsers: CustomParserMap,
    pen: u32,
    payload_bytes: Seq<u8>,
    tail: Seq<u8>,
    copiable: bool,
    r: Result<SpecBlock, PcapError>,
)
    requires
        parsers.contains_key(pen),
    ensures
        ({
            let body = spec_u32_bytes(e, pen) + payload_bytes + tail;
            &&& spec_custom_pen(e, body) == pen
            &&& spec_custom_outcome(e, st, parsers, body, copiable, r) <==> exists|
                o: Result<(Seq<u8>, Box<dyn PcapNgCustom>), PcapError>,
            |
                #[trigger] parsers[pen].parser.parse_outcome(st, payload_bytes + tail, o) && r
                    == spec_custom_block_from(pen, copiable, o)
        }),
{
    let body = spec_u32_bytes(e, pen) + payload_bytes + tail;
    lemma_u32_bytes_roundtrip(e, pen);
    assert(body.subrange(0, 4) =~= spec_u32_bytes(e, pen));
    assert(body.subrange(4, body.len() as int) =~= payload_bytes + tail);
}

/// The count returned for a block body is its number of bytes: when the
/// payload counts the bytes it wrote, the count is that of the number's bytes
/// and the payload's bytes together (until that count no longer fits a `usize`).
pub proof fn lemma_written_len_counts_bytes(e: Endianness, pen: u32, payload_bytes: Seq<u8>)
    ensures
        spec_u32_bytes(e, pen).len() == 4,
        payload_bytes.len() <= usize::MAX - 4 ==> spec_written_len(Ok(payload_bytes.len() as usize)) == Ok::<
            usize,
            PcapError,
        >((spec_u32_bytes(e, pen) + payload_bytes).len() as usize),
{
    lemma_u32_bytes_roundtrip(e, pen);
}

/// After a payload type `T` was registered for a number (the registry entry of
/// that number is `T`'s parser, as `register` leaves it), a custom block body
/// with that number is read by `T::from_slice` on the bytes after the number,
/// in the byte order of the state's section: the block carries the number,
/// and an error of `T` is the answer as it is.
pub proof fn lemma_registered_type_reads_payload<T: PcapNgCustomReader + 'static>(
    e: Endianness,
    st: SpecState,
    parsers: CustomParserMap,
    s: Seq<u8>,
    copiable: bool,
    r: Result<SpecBlock, PcapError>,
)
    requires
        s.len() >= 4,
        parsers.contains_key(spec_custom_pen(e, s)),
        parsers[spec_custom_pen(e, s)].parser === Box::new(CustomReaderFor::<T> { marker: PhantomData }),
    ensures
        spec_custom_outcome(e, st, parsers, s, copiable, r) <==> exists|
            o: Result<(Seq<u8>, Box<dyn PcapNgCustom>), PcapError>,
        |
            #[trigger] spec_reader_outcome::<T>(st, s.subrange(4, s.len() as int), o) && r
                == spec_custom_block_from(spec_custom_pen(e, s), copiable, o),
{
    let pen = spec_custom_pen(e, s);
    let body = s.subrange(4, s.len() as int);
    let p = parsers[pen].parser;
    assert forall|o: Result<(Seq<u8>, Box<dyn PcapNgCustom>), PcapError>|
        #[trigger] p.parse_outcome(st, body, o) <==> spec_reader_outcome::<T>(st, body, o) by {}
    if spec_custom_outcome(e, st, parsers, s, copiable, r) {
        let o = choose|o: Result<(Seq<u8>, Box<dyn PcapNgCustom>), PcapError>|
            #[trigger] p.parse_outcome(st, body, o) && r == spec_custom_block_from(pen, copiable, o);
        assert(spec_reader_outcome::<T>(st, body, o));
    }
    if exists|o: Result<(Seq<u8>, Box<dyn PcapNgCustom>), PcapError>|
        #[trigger] spec_reader_outcome::<T>(st, body, o) && r == spec_custom_block_from(pen, copiable, o) {
        let o = choose|o: Result<(Seq<u8>, Box<dyn PcapNgCustom>), PcapError>|
            #[trigger] spec_reader_outcome::<T>(st, body, o) && r == spec_custom_block_from(pen, copiable, o);
        assert(p.parse_outcome(st, body, o));
    }
}

impl<const COPIABLE: bool> CustomBlock<COPIABLE> {
    /// Create a new custom block from a PEN, and a payload.
    pub fn new<T: PcapNgCustom + 'static>(pen: u32, payload: T) -> (r: Result<Self, PcapError>)
        ensures
            r matches Ok(b) && b.pen == pen && b.payload === Box::new(payload),
    {
        Ok(CustomBlock { pen, payload: Box::new(payload) })
    }

    /// Returns a version of self with all fields converted to owning versions.
    pub fn into_owned(self) -> (r: CustomBlock<COPIABLE>)
        ensures
            r == self,
    {
        self
    }

    /// The custom block with number `pen` from what its payload parser returned:
    /// the bytes after the payload and the block holding that payload, or the
    /// parser's error as it is.
    pub fn from_parsed_payload<'a>(
        pen: u32,
        parsed: Result<(&'a [u8], Box<dyn PcapNgCustom>), PcapError>,
    ) -> (r: Result<(&'a [u8], Self), PcapError>)
        ensures
            match parsed {
                Ok((rem, payload)) => r matches Ok((rem2, b)) && rem2 == rem && b.pen == pen && b.payload
                    === payload,
                Err(x) => r == Err::<(&'a [u8], Self), PcapError>(x),
            },
    {
        match parsed {
            Ok((rem, payload)) => Ok((rem, CustomBlock { pen, payload })),
            Err(x) => Err(x),
        }
    }

    /// Parses the body of a custom block in byte order `e`: reads its Private
    /// Enterprise Number, then hands `state` and the bytes after the number to
    /// the payload parser registered in `parsers` for that number, and returns
    /// the bytes after the payload and the payload that it gives, or its error
    /// as it is.
    pub fn from_slice<'a>(
        e: Endianness,
        state: &PcapNgState,
        parsers: &PcapNgCustomParsers,
        slice: &'a [u8],
    ) -> (r: Result<(&'a [u8], Self), PcapError>)
        ensures
            slice@.len() < 4 ==> r == Err::<(&'a [u8], Self), PcapError>(PcapError::UnexpectedEof),
            slice@.len() >= 4 && !parsers@.contains_key(spec_custom_pen(e, slice@)) ==> r == Err::<
                (&'a [u8], Self),
                PcapError,
            >(PcapError::UnknownPEN(spec_custom_pen(e, slice@))),
            slice@.len() >= 4 && parsers@.contains_key(spec_custom_pen(e, slice@)) ==> exists|
                o: Result<(Seq<u8>, Box<dyn PcapNgCustom>), PcapError>,
            |
                #[trigger] parsers@[spec_custom_pen(e, slice@)].parser.parse_outcome(
                    state@,
                    slice@.subrange(4, slice@.len() as int),
                    o,
                ) && match o {
                    Ok((rest, payload)) => r matches Ok((rem, b)) && rem@ == rest && b.pen
                        == spec_custom_pen(e, slice@) && b.payload === payload,
                    Err(x) => r == Err::<(&'a [u8], Self), PcapError>(x),
                },
    {
        let len = slice.len();
        if len < 4 {
            return Err(PcapError::UnexpectedEof);
        }
        let pen = read_u32_at(e, slice, 0);
        let parser = match parsers.get(pen) {
            Some(p) => p,
            None => return Err(PcapError::UnknownPEN(pen)),
        };
        let parsed = parser.parser.parse(state, slice_subrange(slice, 4, len));
        let ghost o = rest_view(parsed);
        let r = Self::from_parsed_payload(pen, parsed);
        assert(parsers@[pen].parser.parse_outcome(state@, slice@.subrange(4, slice@.len() as int), o));
        r
    }

    /// Writes the body of this block in byte order `e` at the end of `writer`:
    /// its Private Enterprise Number, then the bytes its payload writes of
    /// itself. Returns the number of bytes written, 4 more than the payload's
    /// count, or the payload's error as it is.
    pub fn write_to(&self, e: Endianness, state: &PcapNgState, writer: &mut Vec<u8>) -> (r: Result<
        usize,
        PcapError,
    >)
        ensures
            exists|payload_bytes: Seq<u8>, written: Result<usize, PcapError>|
                #[trigger] self.payload.write_outcome(state@, Seq::empty(), payload_bytes, written)
                    && final(writer)@ == old(writer)@ + spec_u32_bytes(e, self.pen) + payload_bytes && r
                    == spec_written_len(written) && (written == Ok::<usize, PcapError>(payload_bytes.len() as usize)
                    ==> r == Ok::<usize, PcapError>((final(writer)@.len() - old(writer)@.len()) as usize)),
    {
        append_u32(e, writer, self.pen);
        let ghost start = writer@;
        let mut payload_bytes: Vec<u8> = Vec::new();
        let written = self.payload.write_to(state, &mut payload_bytes);
        let len = payload_bytes.len();
        let mut i: usize = 0;
        while i < len
            invariant
                len == payload_bytes@.len(),
                i <= len,
                writer@ == start + payload_bytes@.subrange(0, i as int),
            decreases len - i,
        {
            writer.push(payload_bytes[i]);
            i = i + 1;
            assert(writer@ =~= start + payload_bytes@.subrange(0, i as int));
        }
        assert(payload_bytes@.subrange(0, len as int) =~= payload_bytes@);
        assert(self.payload.write_outcome(state@, Seq::empty(), payload_bytes@, written));
        proof {
            lemma_written_len_counts_bytes(e, self.pen, payload_bytes@);
        }
        assert(writer@.len() == writer.len());
        Self::written_len(written)
    }

    /// The number of bytes of a block body from what its payload's `write_to`
    /// returned: the number's 4 bytes more, or the payload's error as it is.
    pub fn written_len(payload_written: Result<usize, PcapError>) -> (r: Result<usize, PcapError>)
        ensures
            r == spec_written_len(payload_written),
    {
        match payload_written {
            Ok(n) => if n <= usize::MAX - 4 {
                Ok(4 + n)
            } else {
                Err(PcapError::InvalidField("CustomBlock: length overflow"))
            },
            Err(x) => Err(x),
        }
    }

    /// This block as a [`Block`], of the copiable or non-copiable kind that its type says.
    pub fn into_block(self) -> (r: Block)
        ensures
            COPIABLE ==> r@ == SpecBlock::CustomCopiable(self@),
            !COPIABLE ==> r@ == SpecBlock::CustomNonCopiable(self@),
            r matches Block::CustomCopiable(b) ==> b.payload === self.payload,
            r matches Block::CustomNonCopiable(b) ==> b.payload === self.payload,
    {
        if COPIABLE {
            Block::CustomCopiable(CustomBlock { pen: self.pen, payload: self.payload })
        } else {
            Block::CustomNonCopiable(CustomBlock { pen: self.pen, payload: self.payload })
        }
    }
}

/// Common interface for custom block payloads, implemented by the types that
/// applications define for their custom blocks.
pub trait PcapNgCustom {
    /// The relation between the state, the bytes of a writer before and after
    /// `write_to`, and its result. A payload type may define it; by default it
    /// admits every outcome, and the library's proofs use nothing of it but
    /// that `write_to` keeps to it.
    closed spec fn write_outcome(
        &self,
        state: SpecState,
        before: Seq<u8>,
        after: Seq<u8>,
        r: Result<usize, PcapError>,
    ) -> bool {
        true
    }

    /// Returns the Private Enterprise Number (PEN) that identifies this payload type.
    fn pen(&self) -> u32;

    /// Writes this payload at the end of `writer` and returns the number of bytes written.
    fn write_to(&self, state: &PcapNgState, writer: &mut Vec<u8>) -> (r: Result<usize, PcapError>)
        ensures
            self.write_outcome(state@, old(writer)@, final(writer)@, r),
    ;
}

/// Builds a payload type from the bytes of a custom block payload, the state of
/// the capture and the byte order of the section.
pub trait PcapNgCustomReader: Sized + PcapNgCustom {
    /// The relation between the state, the byte order, the bytes given and the
    /// result of `from_slice`. A payload type may define it; by default it
    /// admits every outcome, and the library's proofs use nothing of it but
    /// that `from_slice` keeps to it.
    closed spec fn from_slice_outcome(
        state: SpecState,
        endianness: Endianness,
        s: Seq<u8>,
        r: Result<(Seq<u8>, Self), PcapError>,
    ) -> bool {
        true
    }

    /// Tries to parse a payload from a slice. Does not keep a reference to the underlying slice!
    fn from_slice<'a>(state: &PcapNgState, endianness: Endianness, slice: &'a [u8]) -> (r: Result<
        (&'a [u8], Self),
        PcapError,
    >)
        ensures
            Self::from_slice_outcome(state@, endianness, slice@, rest_view(r)),
    ;
}

/// Parser of the payloads of the custom blocks of one Private Enterprise Number,
/// as the registry holds it.
pub trait PcapNgCustomBlockParser {
    /// The relation between the state, the bytes given and the result of
    /// `parse`. A parser type may define it; by default it admits every
    /// outcome.
    closed spec fn parse_outcome(
        &self,
        state: SpecState,
        s: Seq<u8>,
        r: Result<(Seq<u8>, Box<dyn PcapNgCustom>), PcapError>,
    ) -> bool {
        true
    }

    /// Parses a payload from the bytes after the number, and returns the bytes after the payload with it.
    fn parse<'a>(&self, state: &PcapNgState, slice: &'a [u8]) -> (r: Result<
        (&'a [u8], Box<dyn PcapNgCustom>),
        PcapError,
    >)
        ensures
            self.parse_outcome(state@, slice@, rest_view(r)),
    ;
}

/// What the payload parser of the payload type `T` may give on the bytes `s`
/// in state `st`: what `T::from_slice` may give on them in the byte order of
/// the section, with the payload boxed, or its error as it is.
pub open spec fn spec_reader_outcome<T: PcapNgCustomReader + 'static>(
    st: SpecState,
    s: Seq<u8>,
    r: Result<(Seq<u8>, Box<dyn PcapNgCustom>), PcapError>,
) -> bool {
    exists|o: Result<(Seq<u8>, T), PcapError>|
        #[trigger] T::from_slice_outcome(st, st.section.endianness, s, o) && match o {
            Ok((rest, x)) => r matches Ok((rest2, p)) && rest2 == rest && p === Box::new(x),
            Err(x) => r == Err::<(Seq<u8>, Box<dyn PcapNgCustom>), PcapError>(x),
        }
}

/// Payload parsers of custom blocks, by Private Enterprise Number.
pub struct PcapNgCustomParsers {
    parsers: HashMap<u32, RegisteredParser>,
}

impl View for PcapNgCustomParsers {
    type V = Map<u32, RegisteredParser>;

    /// The registered payload parser of each number.
    closed spec fn view(&self) -> Map<u32, RegisteredParser> {
        self.parsers@
    }
}

/// The registry entry of the payload parser of the payload type `T`.
fn reader_entry<T: PcapNgCustomReader + 'static>() -> (r: RegisteredParser)
    ensures
        r.parser === Box::new(CustomReaderFor::<T> { marker: PhantomData }),
{
    RegisteredParser { parser: Box::new(CustomReaderFor::<T> { marker: PhantomData }) }
}

impl PcapNgCustomParsers {
    /// A registry with no payload parser.
    pub fn new() -> (r: Self)
        ensures
            r@ == Map::<u32, RegisteredParser>::empty(),
    {
        let r = PcapNgCustomParsers { parsers: HashMap::new() };
        assert(r@ =~= Map::<u32, RegisteredParser>::empty());
        r
    }

    /// The payload parser registered for `pen`, if any.
    pub fn get(&self, pen: u32) -> (r: Option<&RegisteredParser>)
        ensures
            r is Some <==> self@.contains_key(pen),
            r matches Some(p) ==> *p == self@[pen],
    {
        self.parsers.get(&pen)
    }

    /// Registers `parser` for `pen`, in place of any parser registered before.
    pub fn insert(&mut self, pen: u32, parser: Box<dyn PcapNgCustomBlockParser>)
        ensures
            final(self)@ == old(self)@.insert(pen, RegisteredParser { parser }),
    {
        let _ = self.parsers.insert(pen, RegisteredParser { parser });
    }

    /// Registers the payload type `T` for `pen`, in place of any type
    /// registered before: the payloads of the custom blocks numbered `pen` are
    /// then parsed by `T::from_slice`, in the byte order of the section.
    pub fn register<T: PcapNgCustomReader + 'static>(&mut self, pen: u32)
        ensures
            final(self)@.dom() == old(self)@.dom().insert(pen),
            final(self)@.remove(pen) == old(self)@.remove(pen),
            final(self)@[pen].parser === Box::new(CustomReaderFor::<T> { marker: PhantomData }),
            forall|st: SpecState, s: Seq<u8>, o: Result<(Seq<u8>, Box<dyn PcapNgCustom>), PcapError>|
                #[trigger] final(self)@[pen].parser.parse_outcome(st, s, o) <==> spec_reader_outcome::<T>(
                    st,
                    s,
                    o,
                ),
    {
        let entry = reader_entry::<T>();
        let _ = self.parsers.insert(pen, entry);
        assert(self@.dom() =~= old(self)@.dom().insert(pen));
        assert(self@.remove(pen) =~= old(self)@.remove(pen));
    }
}

/// The payload parser of the payload type `T`: it parses with `T::from_slice`
/// in the byte order of the section that the state gives.
pub struct CustomReaderFor<T> {
    pub marker: PhantomData<T>,
}

impl<T: PcapNgCustomReader + 'static> PcapNgCustomBlockParser for CustomReaderFor<T> {
    open spec fn parse_outcome(
        &self,
        state: SpecState,
        s: Seq<u8>,
        r: Result<(Seq<u8>, Box<dyn PcapNgCustom>), PcapError>,
    ) -> bool {
        spec_reader_outcome::<T>(state, s, r)
    }

    fn parse<'a>(&self, state: &PcapNgState, slice: &'a [u8]) -> (r: Result<
        (&'a [u8], Box<dyn PcapNgCustom>),
        PcapError,
    >) {
        let parsed = T::from_slice(state, state.section.endianness, slice);
        match parsed {
            Ok((rem, payload)) => Ok((rem, Box::new(payload))),
            Err(x) => Err(x),
        }
    }
}

} // verus!
