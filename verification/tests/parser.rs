use byteorder_slice::byteorder::{LittleEndian, WriteBytesExt};
use pcap_file::pcapng::blocks::raw::RawBlock;
use pcap_file::pcapng::blocks::Block;
use pcap_file::pcapng::{PcapNgParser, PcapNgState};
use pcap_file::read_buffer::Parser;
use pcap_file::{Endianness, PcapError};

fn frame_le(type_: u32, body: &[u8]) -> Vec<u8> {
    let len = (12 + body.len()) as u32;
    let mut out = Vec::new();
    out.write_u32::<LittleEndian>(type_).unwrap();
    out.write_u32::<LittleEndian>(len).unwrap();
    out.extend_from_slice(body);
    out.write_u32::<LittleEndian>(len).unwrap();
    out
}

fn section_header_le(minor: u16) -> Vec<u8> {
    let mut body = Vec::new();
    body.write_u32::<LittleEndian>(0x1A2B3C4D).unwrap();
    body.write_u16::<LittleEndian>(1).unwrap();
    body.write_u16::<LittleEndian>(minor).unwrap();
    body.write_i64::<LittleEndian>(-1).unwrap();
    frame_le(0x0A0D0D0A, &body)
}

fn interface_le(linktype: u16, snaplen: u32) -> Vec<u8> {
    let mut body = Vec::new();
    body.write_u16::<LittleEndian>(linktype).unwrap();
    body.write_u16::<LittleEndian>(0).unwrap();
    body.write_u32::<LittleEndian>(snaplen).unwrap();
    frame_le(0x00000001, &body)
}

fn packet_le(interface_id: u32, data: &[u8]) -> Vec<u8> {
    let mut body = Vec::new();
    body.write_u32::<LittleEndian>(interface_id).unwrap();
    body.write_u32::<LittleEndian>(0).unwrap();
    body.write_u32::<LittleEndian>(1).unwrap();
    body.write_u32::<LittleEndian>(data.len() as u32).unwrap();
    body.write_u32::<LittleEndian>(data.len() as u32).unwrap();
    body.extend_from_slice(data);
    while body.len() % 4 != 0 {
        body.push(0);
    }
    frame_le(0x00000006, &body)
}

fn capture() -> Vec<u8> {
    let mut src = section_header_le(0);
    src.extend_from_slice(&interface_le(1, 65535));
    src.extend_from_slice(&interface_le(101, 128));
    src.extend_from_slice(&packet_le(1, &[1, 2, 3, 4, 5]));
    src
}

#[test]
fn parser_reads_a_capture_block_by_block() {
    let data = capture();
    let (rem, mut parser) = PcapNgParser::new(&data).unwrap();
    assert_eq!(parser.section().endianness, Endianness::Little);
    assert!(parser.interfaces().is_empty());

    let (rem, b) = parser.next_block(rem).unwrap();
    assert!(matches!(b, Block::InterfaceDescription(ref i) if i.linktype == 1 && i.snaplen == 65535));
    let (rem, _) = parser.next_block(rem).unwrap();
    assert_eq!(parser.interfaces().len(), 2);
    assert_eq!(parser.interfaces()[1].linktype, 101);

    let (rem, b) = parser.next_block(rem).unwrap();
    assert!(rem.is_empty());
    let packet = match b {
        Block::EnhancedPacket(p) => p,
        _ => panic!("expected a packet"),
    };
    assert_eq!(packet.data, vec![1, 2, 3, 4, 5]);
    assert_eq!(packet.timestamp, 1);
    let interface = parser.packet_interface(&packet).unwrap();
    assert_eq!(interface.linktype, 101);
    assert_eq!(interface.snaplen, 128);

    // No more data: the parser asks for more.
    assert!(matches!(parser.next_block(rem), Err(PcapError::IncompleteBuffer)));
}

#[test]
fn packet_interface_out_of_range_is_none() {
    let mut data = section_header_le(0);
    data.extend_from_slice(&interface_le(1, 10));
    let (rem, mut parser) = PcapNgParser::new(&data).unwrap();
    parser.next_block(rem).unwrap();
    let packet_src = packet_le(1, &[0]);
    let (_, b) = parser.next_block(&packet_src).unwrap();
    match b {
        Block::EnhancedPacket(p) => assert!(parser.packet_interface(&p).is_none()),
        _ => panic!("expected a packet"),
    }
}

#[test]
fn new_section_header_clears_interfaces() {
    let mut data = section_header_le(0);
    data.extend_from_slice(&interface_le(1, 10));
    data.extend_from_slice(&section_header_le(7));
    let (rem, mut parser) = PcapNgParser::new(&data).unwrap();
    let (rem, _) = parser.next_block(rem).unwrap();
    assert_eq!(parser.interfaces().len(), 1);
    let (rem, b) = parser.next_block(rem).unwrap();
    assert!(rem.is_empty());
    assert!(matches!(b, Block::SectionHeader(ref h) if h.minor_version == 7));
    assert!(parser.interfaces().is_empty());
    assert_eq!(parser.section().minor_version, 7);
}

#[test]
fn new_refuses_a_capture_without_section_header() {
    // An interface description in big-endian order, the order assumed for a first block.
    let data = [0, 0, 0, 1, 0, 0, 0, 20, 0, 1, 0, 0, 0, 0, 0, 10, 0, 0, 0, 20];
    match PcapNgParser::new(&data) {
        Err(PcapError::InvalidField(m)) => assert_eq!(m, "PcapNg: SectionHeader invalid or missing"),
        _ => panic!("expected an invalid field error"),
    }
    assert!(matches!(PcapNgParser::new(&[0u8; 4]), Err(PcapError::IncompleteBuffer)));
}

#[test]
fn next_raw_block_updates_the_state() {
    let data = capture();
    let (rem, mut parser) = PcapNgParser::new(&data).unwrap();
    let (rem, raw) = parser.next_raw_block(rem).unwrap();
    assert_eq!(raw.type_, 1);
    assert_eq!(raw.initial_len, 20);
    assert_eq!(parser.interfaces().len(), 1);
    let (_, raw) = parser.next_raw_block(rem).unwrap();
    assert_eq!(raw.body.len(), 8);
    assert_eq!(parser.interfaces().len(), 2);
}

#[test]
fn invalid_interface_leaves_the_state_unchanged() {
    let mut data = section_header_le(0);
    let mut bad = interface_le(1, 10);
    bad[10] = 1; // reserved field
    data.extend_from_slice(&bad);
    let (rem, mut parser) = PcapNgParser::new(&data).unwrap();
    match parser.next_block(rem) {
        Err(PcapError::InvalidField(m)) => assert_eq!(m, "InterfaceDescriptionBlock: reserved != 0"),
        _ => panic!("expected an invalid field error"),
    }
    assert!(parser.interfaces().is_empty());
}

#[test]
fn next_item_then_update_state_matches_next_block() {
    let data = capture();
    let (rem, mut by_block) = PcapNgParser::new(&data).unwrap();
    let (_, mut by_item) = PcapNgParser::new(&data).unwrap();

    let (rem_a, block_a) = by_block.next_block(rem).unwrap();
    let (rem_b, block_b) = <PcapNgParser as Parser<Block, PcapNgState>>::next_item(&by_item, rem).unwrap();
    <PcapNgParser as Parser<Block, PcapNgState>>::update_state(&mut by_item, &block_b).unwrap();
    assert_eq!(rem_a, rem_b);
    match (block_a, block_b) {
        (Block::InterfaceDescription(a), Block::InterfaceDescription(b)) => assert_eq!(a, b),
        _ => panic!("expected two interface descriptions"),
    }
    assert_eq!(by_block.interfaces(), by_item.interfaces());

    let (rem_c, raw) = <PcapNgParser as Parser<RawBlock, PcapNgState>>::next_item(&by_item, rem_b).unwrap();
    <PcapNgParser as Parser<RawBlock, PcapNgState>>::update_state(&mut by_item, &raw).unwrap();
    assert_eq!(by_item.interfaces().len(), 2);
    let state = <PcapNgParser as Parser<RawBlock, PcapNgState>>::state(&by_item);
    assert_eq!(state.interfaces.len(), 2);
    assert_eq!(rem_c.len(), packet_le(1, &[1, 2, 3, 4, 5]).len());

    let (rest, first) = <() as Parser<PcapNgParser, ()>>::next_item(&(), &data).unwrap();
    assert_eq!(rest, rem);
    assert_eq!(first.section().endianness, Endianness::Little);
    let mut unit = ();
    assert!(<() as Parser<PcapNgParser, ()>>::update_state(&mut unit, &first).is_ok());
    assert_eq!(<() as Parser<PcapNgParser, ()>>::state(&unit), &());
}
