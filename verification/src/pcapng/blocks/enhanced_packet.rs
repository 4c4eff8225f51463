//! Enhanced Packet Block.

use crate::endianness::{lemma_u32_value, num32, read_u32_at, spec_u32, Endianness};
use crate::errors::PcapError;
use super::parsed;
use vstd::prelude::*;
use vstd::slice::{slice_subrange, slice_to_vec};

verus! {

/// Block type of an Enhanced Packet Block.
pub const ENHANCED_PACKET_BLOCK: u32 = 0x00000006;

/// Enhanced Packet Block: a packet captured on one of the interfaces of the section.
#[derive(Debug, PartialEq, Eq)]
pub struct EnhancedPacketBlock {
    /// Index of the interface, among the Interface Description Blocks of the section.
    pub interface_id: u32,
    /// Timestamp, in units of the interface's timestamp resolution (high word, then low word).
    pub timestamp: u64,
    /// Length of the packet on the wire.
    pub original_len: u32,
    /// Captured bytes of the packet.
    pub data: Vec<u8>,
    /// Bytes of the options of the block.
    pub options: Vec<u8>,
}

/// Mathematical model of an [`EnhancedPacketBlock`].
pub struct SpecEnhancedPacket {
    pub interface_id: u32,
    pub timestamp: u64,
    pub original_len: u32,
    pub data: Seq<u8>,
    pub options: Seq<u8>,
}

impl View for EnhancedPacketBlock {
    type V = SpecEnhancedPacket;

    open spec fn view(&self) -> SpecEnhancedPacket {
        SpecEnhancedPacket {
            interface_id: self.interface_id,
            timestamp: self.timestamp,
            original_len: self.original_len,
            data: self.data@,
            options: self.options@,
        }
    }
}

/// Number of padding bytes that follow `captured_len` bytes of packet data, up to a multiple of 4.
pub open spec fn spec_padding(captured_len: u32) -> int {
    (4 - (captured_len as int % 4)) % 4
}

/// Parse of the body of an Enhanced Packet Block in byte order `e`: the number
/// of bytes it takes (all of them) and the block, or the error.
pub open spec fn spec_parse_enhanced_packet(e: Endianness, s: Seq<u8>) -> Result<
    (int, SpecEnhancedPacket),
    PcapError,
> {
    if s.len() < 20 {
        Err(PcapError::InvalidField("EnhancedPacketBlock: block length < 20"))
    } else {
        let captured_len = spec_u32(e, s.subrange(12, 16));
        let tot_len = captured_len as int + spec_padding(captured_len);
        if s.len() - 20 < tot_len {
            Err(PcapError::InvalidField("EnhancedPacketBlock: captured_len + padding > block length"))
        } else {
            let ts_high = spec_u32(e, s.subrange(4, 8));
            let ts_low = spec_u32(e, s.subrange(8, 12));
            Ok((
                s.len() as int,
                SpecEnhancedPacket {
                    interface_id: spec_u32(e, s.subrange(0, 4)),
                    timestamp: ((ts_high as u64) << 32) | (ts_low as u64),
                    original_len: spec_u32(e, s.subrange(16, 20)),
                    data: s.subrange(20, 20 + captured_len),
                    options: s.subrange(20 + tot_len, s.len() as int),
                },
            ))
        }
    }
}

/// The packet data of an Enhanced Packet Block body is the `c` bytes after its
/// 20-byte header, `c` being its captured length; they are followed by the
/// `p` padding bytes that bring `c` to a multiple of 4 (`p` < 4, so none when
/// `c` is already one), and the options are the rest of the body. The body is
/// refused exactly when it is too short for the data and its padding. The
/// fields are the numbers of bytes 0..4 (interface), 12..16 (captured length)
/// and 16..20 (length on the wire) in the section's byte order, and the
/// timestamp has the number of bytes 4..8 as its high 32 bits and that of
/// bytes 8..12 as its low 32 bits.
pub proof fn lemma_enhanced_packet_layout(e: Endianness, s: Seq<u8>, p: int)
    requires
        s.len() >= 20,
        0 <= p < 4,
        (num32(e, s, 12) + p) % 4 == 0,
    ensures
        spec_parse_enhanced_packet(e, s) is Ok <==> 20 + num32(e, s, 12) + p <= s.len(),
        spec_parse_enhanced_packet(e, s) matches Ok((n, b)) ==> {
            &&& n == s.len()
            &&& b.interface_id == num32(e, s, 0)
            &&& b.timestamp == num32(e, s, 4) * 4294967296 + num32(e, s, 8)
            &&& b.original_len == num32(e, s, 16)
            &&& b.data == s.subrange(20, 20 + num32(e, s, 12))
            &&& b.options == s.subrange(20 + num32(e, s, 12) + p, s.len() as int)
        },
{
    lemma_u32_value(e, s, 0);
    lemma_u32_value(e, s, 4);
    lemma_u32_value(e, s, 8);
    let hi = spec_u32(e, s.subrange(4, 8));
    let lo = spec_u32(e, s.subrange(8, 12));
    assert(((hi as u64) << 32) | (lo as u64) == hi * 4294967296 + lo) by (bit_vector);
    lemma_u32_value(e, s, 12);
    lemma_u32_value(e, s, 16);
}

impl EnhancedPacketBlock {
    /// Parses the body of an Enhanced Packet Block in byte order `e`.
    pub fn from_slice<'a>(e: Endianness, slice: &'a [u8]) -> (r: Result<(&'a [u8], EnhancedPacketBlock), PcapError>)
        ensures
            parsed(slice@, r, spec_parse_enhanced_packet(e, slice@)),
    {
        let len = slice.len();
        if len < 20 {
            return Err(PcapError::InvalidField("EnhancedPacketBlock: block length < 20"));
        }
        let interface_id = read_u32_at(e, slice, 0);
        let ts_high = read_u32_at(e, slice, 4);
        let ts_low = read_u32_at(e, slice, 8);
        let captured_len = read_u32_at(e, slice, 12);
        let original_len = read_u32_at(e, slice, 16);
        let pad_len: u32 = (4 - captured_len % 4) % 4;
        let tot_len: u64 = captured_len as u64 + pad_len as u64;
        if ((len - 20) as u64) < tot_len {
            return Err(
                PcapError::InvalidField("EnhancedPacketBlock: captured_len + padding > block length"),
            );
        }
        let data_end: usize = 20 + captured_len as usize;
        let options_start: usize = 20 + tot_len as usize;
        let data = slice_to_vec(slice_subrange(slice, 20, data_end));
        let options = slice_to_vec(slice_subrange(slice, options_start, len));
        let timestamp: u64 = ((ts_high as u64) << 32) | (ts_low as u64);
        let rem = slice_subrange(slice, len, len);
        Ok((rem, EnhancedPacketBlock { interface_id, timestamp, original_len, data, options }))
    }
}

} // verus!
