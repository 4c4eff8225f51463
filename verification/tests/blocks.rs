use byteorder_slice::byteorder::{BigEndian, LittleEndian, WriteBytesExt};
use pcap_file::pcapng::blocks::enhanced_packet::EnhancedPacketBlock;
use pcap_file::pcapng::blocks::interface_description::InterfaceDescriptionBlock;
use pcap_file::pcapng::blocks::raw::RawBlock;
use pcap_file::pcapng::blocks::section_header::SectionHeaderBlock;
use pcap_file::pcapng::blocks::custom::PcapNgCustomParsers;
use pcap_file::pcapng::blocks::Block;
use pcap_file::pcapng::PcapNgState;
use pcap_file::{Endianness, PcapError};

fn frame_le(type_: u32, body: &[u8]) -> Vec<u8> {
    let len = (12 + body.len()) as u32;
    let mut out = Vec::new();
    out.write_u32::<LittleEndian>(type_).unwrap();
    out.write_u32::<LittleEndian>(len).unwrap();
    out.extend_from_slice(body);
    out.write_u32::<LittleEndian>(len).unwrap();
    out
}

fn invalid_field(r: &PcapError, msg: &str) -> bool {
    matches!(r, PcapError::InvalidField(m) if *m == msg)
}

#[test]
fn raw_block_takes_its_total_length() {
    let mut src = frame_le(0x00000042, &[1, 2, 3, 4]);
    src.extend_from_slice(&[7, 7]);
    let (rem, raw) = RawBlock::from_slice(Endianness::Little, &src).unwrap();
    assert_eq!(rem, &[7, 7]);
    assert_eq!(raw.type_, 0x42);
    assert_eq!(raw.initial_len, 16);
    assert_eq!(raw.trailer_len, 16);
    assert_eq!(raw.body, vec![1, 2, 3, 4]);
}

#[test]
fn raw_block_errors() {
    assert!(matches!(RawBlock::from_slice(Endianness::Big, &[0; 11]), Err(PcapError::IncompleteBuffer)));

    let mut bad_mod = frame_le(0x42, &[1, 2, 3, 4]);
    bad_mod[4] = 17;
    assert!(invalid_field(&RawBlock::from_slice(Endianness::Little, &bad_mod).unwrap_err(), "Block: (initial_len % 4) != 0"));

    let mut too_small = frame_le(0x42, &[1, 2, 3, 4]);
    too_small[4] = 8;
    assert!(invalid_field(&RawBlock::from_slice(Endianness::Little, &too_small).unwrap_err(), "Block: initial_len < 12"));

    let full = frame_le(0x42, &[1, 2, 3, 4, 5, 6, 7, 8]);
    assert!(matches!(RawBlock::from_slice(Endianness::Little, &full[..16]), Err(PcapError::IncompleteBuffer)));

    let mut mismatch = frame_le(0x42, &[1, 2, 3, 4]);
    mismatch[12] = 20;
    assert!(invalid_field(&RawBlock::from_slice(Endianness::Little, &mismatch).unwrap_err(), "Block: initial_length != trailer_length"));

    let mut bad_magic = frame_le(0x0A0D0D0A, &[0; 16]);
    bad_magic[8] = 0x11;
    assert!(invalid_field(&RawBlock::from_slice(Endianness::Big, &bad_magic).unwrap_err(), "SectionHeaderBlock: invalid magic number"));
}

#[test]
fn raw_section_header_finds_its_byte_order() {
    // A little-endian section header read while the parser assumes big-endian.
    let mut body = Vec::new();
    body.write_u32::<LittleEndian>(0x1A2B3C4D).unwrap();
    body.write_u16::<LittleEndian>(1).unwrap();
    body.write_u16::<LittleEndian>(2).unwrap();
    body.write_i64::<LittleEndian>(-1).unwrap();
    let src = frame_le(0x0A0D0D0A, &body);
    let (rem, raw) = RawBlock::from_slice(Endianness::Big, &src).unwrap();
    assert!(rem.is_empty());
    assert_eq!(raw.initial_len, 28);
    let block = raw.try_into_block(Endianness::Big, &PcapNgState::default(), &PcapNgCustomParsers::new()).unwrap();
    match block {
        Block::SectionHeader(h) => {
            assert_eq!(h.endianness, Endianness::Little);
            assert_eq!(h.major_version, 1);
            assert_eq!(h.minor_version, 2);
            assert_eq!(h.section_length, -1);
            assert!(h.options.is_empty());
        },
        _ => panic!("expected a section header"),
    }
}

#[test]
fn section_header_parse_and_errors() {
    let mut body = Vec::new();
    body.write_u32::<BigEndian>(0x1A2B3C4D).unwrap();
    body.write_u16::<BigEndian>(1).unwrap();
    body.write_u16::<BigEndian>(0).unwrap();
    body.write_i64::<BigEndian>(0x1234).unwrap();
    body.extend_from_slice(&[9, 9, 9, 9]);
    let (rem, h) = SectionHeaderBlock::from_slice(&body).unwrap();
    assert!(rem.is_empty());
    assert_eq!(h.endianness, Endianness::Big);
    assert_eq!(h.section_length, 0x1234);
    assert_eq!(h.options, vec![9, 9, 9, 9]);

    assert!(invalid_field(&SectionHeaderBlock::from_slice(&body[..15]).unwrap_err(), "SectionHeaderBlock: block length < 16"));
    let mut bad = body.clone();
    bad[0] = 0;
    assert!(invalid_field(&SectionHeaderBlock::from_slice(&bad).unwrap_err(), "SectionHeaderBlock: invalid magic number"));

    let default = SectionHeaderBlock::default();
    assert_eq!(default.endianness, Endianness::Big);
    assert_eq!(default.major_version, 1);
    assert_eq!(default.minor_version, 0);
    assert_eq!(default.section_length, -1);
    assert_eq!(default.duplicate(), default);
}

#[test]
fn interface_description_parse_and_errors() {
    let body = [1, 0, 0, 0, 0xff, 0xff, 0, 0, 5, 6];
    let (rem, i) = InterfaceDescriptionBlock::from_slice(Endianness::Little, &body).unwrap();
    assert!(rem.is_empty());
    assert_eq!(i.linktype, 1);
    assert_eq!(i.snaplen, 0xffff);
    assert_eq!(i.options, vec![5, 6]);
    assert_eq!(i.duplicate(), i);

    assert!(invalid_field(&InterfaceDescriptionBlock::from_slice(Endianness::Little, &body[..7]).unwrap_err(), "InterfaceDescriptionBlock: block length < 8"));
    let reserved = [1, 0, 1, 0, 0xff, 0xff, 0, 0];
    assert!(invalid_field(&InterfaceDescriptionBlock::from_slice(Endianness::Little, &reserved).unwrap_err(), "InterfaceDescriptionBlock: reserved != 0"));
}

#[test]
fn enhanced_packet_parse_with_padding() {
    let mut body = Vec::new();
    body.write_u32::<BigEndian>(2).unwrap(); // interface
    body.write_u32::<BigEndian>(1).unwrap(); // timestamp high
    body.write_u32::<BigEndian>(5).unwrap(); // timestamp low
    body.write_u32::<BigEndian>(3).unwrap(); // captured length
    body.write_u32::<BigEndian>(60).unwrap(); // length on the wire
    body.extend_from_slice(&[0xAA, 0xBB, 0xCC, 0]); // data and one byte of padding
    body.extend_from_slice(&[1, 2, 3, 4]); // options
    let (rem, p) = EnhancedPacketBlock::from_slice(Endianness::Big, &body).unwrap();
    assert!(rem.is_empty());
    assert_eq!(p.interface_id, 2);
    assert_eq!(p.timestamp, (1u64 << 32) | 5);
    assert_eq!(p.original_len, 60);
    assert_eq!(p.data, vec![0xAA, 0xBB, 0xCC]);
    assert_eq!(p.options, vec![1, 2, 3, 4]);

    assert!(invalid_field(&EnhancedPacketBlock::from_slice(Endianness::Big, &body[..19]).unwrap_err(), "EnhancedPacketBlock: block length < 20"));
    assert!(invalid_field(
        &EnhancedPacketBlock::from_slice(Endianness::Big, &body[..23]).unwrap_err(),
        "EnhancedPacketBlock: captured_len + padding > block length"
    ));
}

#[test]
fn unknown_block_is_kept_whole() {
    let src = frame_le(0x00000099, &[1, 2, 3, 4]);
    let (rem, block) = Block::from_slice(Endianness::Little, &PcapNgState::default(), &PcapNgCustomParsers::new(), &src).unwrap();
    assert!(rem.is_empty());
    match block {
        Block::Unknown(u) => {
            assert_eq!(u.type_, 0x99);
            assert_eq!(u.length, 16);
            assert_eq!(u.value, vec![1, 2, 3, 4]);
        },
        _ => panic!("expected an unknown block"),
    }
}
