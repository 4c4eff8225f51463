use byteorder_slice::byteorder::{BigEndian, LittleEndian, WriteBytesExt};
use byteorder_slice::{BigEndian as ReadBig, ByteOrder, LittleEndian as ReadLittle};
use pcap_file::pcapng::blocks::custom::{
    CustomBlock, PcapNgCustom, PcapNgCustomBlockParser, PcapNgCustomParsers, PcapNgCustomReader,
};
use pcap_file::pcapng::blocks::Block;
use pcap_file::pcapng::{PcapNgParser, PcapNgState};
use pcap_file::read_buffer::Parser;
use pcap_file::{Endianness, PcapError};

// A unique PEN for our test block
const MY_CUSTOM_PEN: u32 = 70000;

#[derive(Debug, Clone, PartialEq, Eq)]
struct MyCustomPayload {
    magic_number: u64,
}

impl PcapNgCustom for MyCustomPayload {
    fn pen(&self) -> u32 {
        MY_CUSTOM_PEN
    }

    fn write_to(&self, state: &PcapNgState, writer: &mut Vec<u8>) -> Result<usize, PcapError> {
        match state.section.endianness {
            Endianness::Big => writer.write_u64::<BigEndian>(self.magic_number).unwrap(),
            Endianness::Little => writer.write_u64::<LittleEndian>(self.magic_number).unwrap(),
        }
        Ok(8)
    }
}

impl PcapNgCustomReader for MyCustomPayload {
    fn from_slice<'a>(_state: &PcapNgState, endianness: Endianness, slice: &'a [u8]) -> Result<(&'a [u8], Self), PcapError> {
        if slice.len() < 8 {
            return Err(PcapError::UnexpectedEof);
        }
        let magic_number = match endianness {
            Endianness::Big => ReadBig::read_u64(slice),
            Endianness::Little => ReadLittle::read_u64(slice),
        };
        Ok((slice, MyCustomPayload { magic_number }))
    }
}

/// A payload of one byte.
#[derive(Debug, Clone, PartialEq, Eq)]
struct OtherPayload {
    byte: u8,
}

impl PcapNgCustom for OtherPayload {
    fn pen(&self) -> u32 {
        1234
    }

    fn write_to(&self, _state: &PcapNgState, writer: &mut Vec<u8>) -> Result<usize, PcapError> {
        writer.push(self.byte);
        Ok(1)
    }
}

impl PcapNgCustomReader for OtherPayload {
    fn from_slice<'a>(_state: &PcapNgState, _endianness: Endianness, slice: &'a [u8]) -> Result<(&'a [u8], Self), PcapError> {
        if slice.is_empty() {
            return Err(PcapError::UnexpectedEof);
        }
        Ok((&slice[1..], OtherPayload { byte: slice[0] }))
    }
}

/// A payload parser written by hand: every payload is one `OtherPayload` of the
/// first byte, and the bytes after it are left.
struct FirstByteParser;

impl PcapNgCustomBlockParser for FirstByteParser {
    fn parse<'a>(&self, state: &PcapNgState, slice: &'a [u8]) -> Result<(&'a [u8], Box<dyn PcapNgCustom>), PcapError> {
        let (rem, payload) = OtherPayload::from_slice(state, state.section.endianness, slice)?;
        Ok((rem, Box::new(payload)))
    }
}

/// The bytes that a payload writes of itself in `state`.
fn bytes_of(payload: &dyn PcapNgCustom, state: &PcapNgState) -> Vec<u8> {
    let mut out = Vec::new();
    payload.write_to(state, &mut out).unwrap();
    out
}

/// A whole block in big-endian order: type, total length, body, total length.
fn frame_big(type_: u32, body: &[u8]) -> Vec<u8> {
    let len = (12 + body.len()) as u32;
    let mut out = Vec::new();
    out.write_u32::<BigEndian>(type_).unwrap();
    out.write_u32::<BigEndian>(len).unwrap();
    out.extend_from_slice(body);
    out.write_u32::<BigEndian>(len).unwrap();
    out
}

/// A big-endian Section Header Block with no options.
fn section_header_big() -> Vec<u8> {
    let mut body = Vec::new();
    body.write_u32::<BigEndian>(0x1A2B3C4D).unwrap();
    body.write_u16::<BigEndian>(1).unwrap();
    body.write_u16::<BigEndian>(0).unwrap();
    body.write_i64::<BigEndian>(-1).unwrap();
    frame_big(0x0A0D0D0A, &body)
}

#[test]
fn test_custom_block() {
    let written_payload = MyCustomPayload { magic_number: 0xDEADBEEFCAFED00D };
    let written_block = CustomBlock::<true>::new(MY_CUSTOM_PEN, written_payload.clone()).unwrap();

    // The block body in the byte order of the section that will hold it.
    let writer_state = PcapNgState::default();
    let mut body = Vec::new();
    let written = written_block.write_to(Endianness::Big, &writer_state, &mut body).expect("Failed to write custom block");
    assert_eq!(written, 12);

    let mut buffer = section_header_big();
    buffer.extend_from_slice(&frame_big(0x00000BAD, &body));

    // --- READING ---
    let (rem, mut pcapng_parser) = PcapNgParser::new(&buffer).expect("Failed to create parser");
    let mut remaining_data = rem;

    // Payload parser registration
    pcapng_parser.register::<MyCustomPayload>(MY_CUSTOM_PEN);

    // Read the next block, which should be our custom block
    let (rem, read_block_enum) = pcapng_parser.next_block(remaining_data).expect("Failed to read next block");
    remaining_data = rem;

    // --- VERIFICATION ---
    let read_block = match read_block_enum {
        Block::CustomCopiable(block) => block,
        _ => panic!("Expected a CustomCopiable block, but got something else."),
    };

    // Assert that the PEN is correct
    assert_eq!(read_block.pen, MY_CUSTOM_PEN, "PEN did not match");

    // The payload was decoded by the registered payload type: it writes back the same bytes
    let state = <PcapNgParser as Parser<Block, PcapNgState>>::state(&pcapng_parser);
    assert_eq!(read_block.payload.pen(), MY_CUSTOM_PEN, "Failed to downcast payload");
    assert_eq!(bytes_of(&*read_block.payload, state), bytes_of(&written_payload, state), "Payload data did not match");

    // The full block writes the same body as the block that was written
    let mut read_body = Vec::new();
    read_block.write_to(Endianness::Big, state, &mut read_body).unwrap();
    assert_eq!(read_body, body, "Full blocks did not match");

    // Verify there is no more data left to parse
    assert!(remaining_data.is_empty(), "Expected all data to be consumed");
}


#[test]
fn custom_block_with_unregistered_pen_is_refused() {
    let block = CustomBlock::<false>::new(MY_CUSTOM_PEN, MyCustomPayload { magic_number: 7 }).unwrap();
    let mut body = Vec::new();
    block.write_to(Endianness::Big, &PcapNgState::default(), &mut body).unwrap();
    let mut buffer = section_header_big();
    buffer.extend_from_slice(&frame_big(0x40000BAD, &body));

    let (rem, mut parser) = PcapNgParser::new(&buffer).unwrap();
    assert!(matches!(parser.next_block(rem), Err(PcapError::UnknownPEN(MY_CUSTOM_PEN))));

    parser.register::<MyCustomPayload>(MY_CUSTOM_PEN);
    let (rem, read) = parser.next_block(rem).unwrap();
    assert!(rem.is_empty());
    match read {
        Block::CustomNonCopiable(b) => {
            assert_eq!(b.pen, MY_CUSTOM_PEN);
            let state = PcapNgState::default();
            assert_eq!(bytes_of(&*b.payload, &state), 7u64.to_be_bytes().to_vec());
        },
        _ => panic!("expected a non-copiable custom block"),
    }
}

#[test]
fn custom_payload_parse_error_is_returned_as_it_is() {
    // A body holding only the number: the payload type's 8-byte read fails.
    let mut buffer = section_header_big();
    buffer.extend_from_slice(&frame_big(0x00000BAD, &MY_CUSTOM_PEN.to_be_bytes()));
    let (rem, mut parser) = PcapNgParser::new(&buffer).unwrap();
    parser.register::<MyCustomPayload>(MY_CUSTOM_PEN);
    assert!(matches!(parser.next_block(rem), Err(PcapError::UnexpectedEof)));
}

#[test]
fn custom_block_from_slice_returns_the_parsers_remainder() {
    let mut parsers = PcapNgCustomParsers::new();
    parsers.register::<MyCustomPayload>(MY_CUSTOM_PEN);
    let little = {
        let mut s = PcapNgState::default();
        s.section.endianness = Endianness::Little;
        s
    };
    let mut slice = Vec::new();
    slice.write_u32::<LittleEndian>(MY_CUSTOM_PEN).unwrap();
    slice.write_u64::<LittleEndian>(0xDEADBEEFCAFED00D).unwrap();
    let (rem, b) = CustomBlock::<true>::from_slice(Endianness::Little, &little, &parsers, &slice).unwrap();
    // The payload type gives back its whole input as the remainder.
    assert_eq!(rem, &slice[4..]);
    assert_eq!(b.pen, MY_CUSTOM_PEN);
    assert_eq!(bytes_of(&*b.payload, &little), slice[4..].to_vec());
}

#[test]
fn custom_payload_is_read_in_the_byte_order_of_the_section() {
    // The number is read in the byte order given; the payload in that of the state's section.
    let mut parsers = PcapNgCustomParsers::new();
    parsers.register::<MyCustomPayload>(MY_CUSTOM_PEN);
    let big = PcapNgState::default();
    let mut slice = Vec::new();
    slice.write_u32::<LittleEndian>(MY_CUSTOM_PEN).unwrap();
    slice.write_u64::<BigEndian>(0x0102030405060708).unwrap();
    let (_, b) = CustomBlock::<true>::from_slice(Endianness::Little, &big, &parsers, &slice).unwrap();
    assert_eq!(bytes_of(&*b.payload, &big), 0x0102030405060708u64.to_be_bytes().to_vec());
}

#[test]
fn registering_again_replaces_the_payload_type() {
    let mut parsers = PcapNgCustomParsers::new();
    parsers.register::<MyCustomPayload>(MY_CUSTOM_PEN);
    parsers.register::<OtherPayload>(MY_CUSTOM_PEN);
    parsers.register::<MyCustomPayload>(1);
    let state = PcapNgState::default();
    let mut slice = MY_CUSTOM_PEN.to_be_bytes().to_vec();
    slice.extend_from_slice(&[9, 8, 7, 6, 5, 4, 3, 2]);
    let (rem, b) = CustomBlock::<false>::from_slice(Endianness::Big, &state, &parsers, &slice).unwrap();
    // The payload type registered last reads one byte only.
    assert_eq!(rem, &slice[5..]);
    assert_eq!(b.payload.pen(), 1234);
    let mut other = 1u32.to_be_bytes().to_vec();
    other.extend_from_slice(&[0; 8]);
    let (rem, b) = CustomBlock::<false>::from_slice(Endianness::Big, &state, &parsers, &other).unwrap();
    assert_eq!(rem, &other[4..]);
    assert_eq!(b.payload.pen(), MY_CUSTOM_PEN);
}

#[test]
fn inserted_parser_reads_the_bytes_after_the_number() {
    let mut parsers = PcapNgCustomParsers::new();
    parsers.register::<MyCustomPayload>(77);
    parsers.insert(77, Box::new(FirstByteParser));
    let state = PcapNgState::default();
    let slice = [0, 0, 0, 77, 0xAB, 0xCD];
    let (rem, b) = CustomBlock::<true>::from_slice(Endianness::Big, &state, &parsers, &slice).unwrap();
    assert_eq!(rem, &[0xCD]);
    assert_eq!(b.pen, 77);
    assert_eq!(bytes_of(&*b.payload, &state), vec![0xAB]);
    assert!(matches!(
        CustomBlock::<true>::from_slice(Endianness::Big, &state, &parsers, &slice[..4]),
        Err(PcapError::UnexpectedEof)
    ));
}

#[test]
fn custom_block_short_body_is_unexpected_eof() {
    let state = PcapNgState::default();
    let parsers = PcapNgCustomParsers::new();
    let r = CustomBlock::<true>::from_slice(Endianness::Big, &state, &parsers, &[0, 1, 2]);
    assert!(matches!(r, Err(PcapError::UnexpectedEof)));
    let r = CustomBlock::<true>::from_slice(Endianness::Big, &state, &parsers, &[0, 1, 2, 3]);
    assert!(matches!(r, Err(PcapError::UnknownPEN(0x00010203))));
}

#[test]
fn custom_block_write_to_writes_the_number_then_the_payload() {
    let block = CustomBlock::<true>::new(MY_CUSTOM_PEN, MyCustomPayload { magic_number: 0xDEADBEEFCAFED00D }).unwrap();
    let little = {
        let mut s = PcapNgState::default();
        s.section.endianness = Endianness::Little;
        s
    };
    let mut w = vec![0xEE];
    assert!(matches!(block.write_to(Endianness::Little, &little, &mut w), Ok(12)));
    let mut expected = vec![0xEE, 0x70, 0x11, 1, 0];
    expected.extend_from_slice(&0xDEADBEEFCAFED00Du64.to_le_bytes());
    assert_eq!(w, expected);
    let mut w = Vec::new();
    assert!(matches!(block.write_to(Endianness::Big, &little, &mut w), Ok(12)));
    assert_eq!(&w[..4], &[0, 1, 0x11, 0x70]);
}

#[test]
fn custom_block_written_length() {
    assert!(matches!(CustomBlock::<true>::written_len(Ok(8)), Ok(12)));
    assert!(matches!(CustomBlock::<true>::written_len(Err(PcapError::UnexpectedEof)), Err(PcapError::UnexpectedEof)));
    assert!(matches!(CustomBlock::<true>::written_len(Ok(usize::MAX)), Err(PcapError::InvalidField(_))));
}

#[test]
fn custom_block_into_block_keeps_kind() {
    let copiable = CustomBlock::<true>::new(5, MyCustomPayload { magic_number: 1 }).unwrap();
    match copiable.into_owned().into_block() {
        Block::CustomCopiable(b) => assert_eq!(b.pen, 5),
        _ => panic!("expected a copiable custom block"),
    }
    let non_copiable = CustomBlock::<false>::new(6, MyCustomPayload { magic_number: 2 }).unwrap();
    match non_copiable.into_block() {
        Block::CustomNonCopiable(b) => assert_eq!(b.pen, 6),
        _ => panic!("expected a non-copiable custom block"),
    }
}
