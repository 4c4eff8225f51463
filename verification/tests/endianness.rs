use pcap_file::endianness::{append_u32, read_u16_at, read_u32_at, read_u64_at};
use pcap_file::Endianness;

#[test]
fn read_numbers_in_both_byte_orders() {
    let bytes = [0xFF, 1, 2, 3, 4, 5, 6, 7, 8];
    assert_eq!(read_u16_at(Endianness::Big, &bytes, 1), 0x0102);
    assert_eq!(read_u16_at(Endianness::Little, &bytes, 1), 0x0201);
    assert_eq!(read_u32_at(Endianness::Big, &bytes, 1), 0x01020304);
    assert_eq!(read_u32_at(Endianness::Little, &bytes, 1), 0x04030201);
    assert_eq!(read_u64_at(Endianness::Big, &bytes, 1), 0x0102030405060708);
    assert_eq!(read_u64_at(Endianness::Little, &bytes, 1), 0x0807060504030201);
}

#[test]
fn append_then_read_gives_the_number_back() {
    for e in [Endianness::Big, Endianness::Little] {
        let mut out = vec![0xEE];
        append_u32(e, &mut out, 0xDEADBEEF);
        assert_eq!(out.len(), 5);
        assert_eq!(read_u32_at(e, &out, 1), 0xDEADBEEF);
    }
    let mut big = Vec::new();
    append_u32(Endianness::Big, &mut big, 0x01020304);
    assert_eq!(big, vec![1, 2, 3, 4]);
    let mut little = Vec::new();
    append_u32(Endianness::Little, &mut little, 0x01020304);
    assert_eq!(little, vec![4, 3, 2, 1]);
}
