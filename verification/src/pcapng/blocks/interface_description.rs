//! Interface Description Block.

use crate::endianness::{
    lemma_u16_value, lemma_u32_value, num16, num32, read_u16_at, read_u32_at, spec_u16, spec_u32, Endianness,
};
use crate::errors::PcapError;
use super::parsed;
use vstd::prelude::*;
use vstd::slice::{slice_subrange, slice_to_vec};

verus! {

/// Block type of an Interface Description Block.
pub const INTERFACE_DESCRIPTION_BLOCK: u32 = 0x00000001;

/// Interface Description Block: an interface on which packets of the section were captured.
#[derive(Debug, PartialEq, Eq)]
pub struct InterfaceDescriptionBlock {
    /// Link layer type of the interface.
    pub linktype: u16,
    /// Largest number of bytes captured from each packet.
    pub snaplen: u32,
    /// Bytes of the options of the block.
    pub options: Vec<u8>,
}

/// Mathematical model of an [`InterfaceDescriptionBlock`].
pub struct SpecInterfaceDescription {
    pub linktype: u16,
    pub snaplen: u32,
    pub options: Seq<u8>,
}

impl View for InterfaceDescriptionBlock {
    type V = SpecInterfaceDescription;

    open spec fn view(&self) -> SpecInterfaceDescription {
        SpecInterfaceDescription { linktype: self.linktype, snaplen: self.snaplen, options: self.options@ }
    }
}

/// Parse of the body of an Interface Description Block in byte order `e`: the
/// number of bytes it takes (all of them) and the block, or the error.
pub open spec fn spec_parse_interface_description(e: Endianness, s: Seq<u8>) -> Result<
    (int, SpecInterfaceDescription),
    PcapError,
> {
    if s.len() < 8 {
        Err(PcapError::InvalidField("InterfaceDescriptionBlock: block length < 8"))
    } else if spec_u16(e, s.subrange(2, 4)) != 0 {
        Err(PcapError::InvalidField("InterfaceDescriptionBlock: reserved != 0"))
    } else {
        Ok((
            s.len() as int,
            SpecInterfaceDescription {
                linktype: spec_u16(e, s.subrange(0, 2)),
                snaplen: spec_u32(e, s.subrange(4, 8)),
                options: s.subrange(8, s.len() as int),
            },
        ))
    }
}

/// An Interface Description Block body of at least 8 bytes is read when its
/// reserved bytes 2..4 are zero, and refused otherwise: its link type is the
/// 16-bit number of bytes 0..2, its snapshot length the 32-bit number of
/// bytes 4..8, both in the section's byte order, and its options the bytes
/// from 8 on.
pub proof fn lemma_interface_description_fields(e: Endianness, s: Seq<u8>)
    requires
        s.len() >= 8,
    ensures
        s[2] == 0 && s[3] == 0 ==> (spec_parse_interface_description(e, s) matches Ok((n, i)) && n == s.len()
            && i.linktype == num16(e, s, 0) && i.snaplen == num32(e, s, 4) && i.options == s.subrange(
            8,
            s.len() as int,
        )),
        !(s[2] == 0 && s[3] == 0) ==> spec_parse_interface_description(e, s) == Err::<
            (int, SpecInterfaceDescription),
            PcapError,
        >(PcapError::InvalidField("InterfaceDescriptionBlock: reserved != 0")),
{
    lemma_u16_value(e, s, 0);
    lemma_u16_value(e, s, 2);
    lemma_u32_value(e, s, 4);
}

impl InterfaceDescriptionBlock {
    /// Parses the body of an Interface Description Block in byte order `e`.
    pub fn from_slice<'a>(e: Endianness, slice: &'a [u8]) -> (r: Result<(&'a [u8], InterfaceDescriptionBlock), PcapError>)
        ensures
            parsed(slice@, r, spec_parse_interface_description(e, slice@)),
    {
        let len = slice.len();
        if len < 8 {
            return Err(PcapError::InvalidField("InterfaceDescriptionBlock: block length < 8"));
        }
        let linktype = read_u16_at(e, slice, 0);
        let reserved = read_u16_at(e, slice, 2);
        if reserved != 0 {
            return Err(PcapError::InvalidField("InterfaceDescriptionBlock: reserved != 0"));
        }
        let snaplen = read_u32_at(e, slice, 4);
        let options = slice_to_vec(slice_subrange(slice, 8, len));
        let rem = slice_subrange(slice, len, len);
        Ok((rem, InterfaceDescriptionBlock { linktype, snaplen, options }))
    }

    /// A block equal to this one.
    pub fn duplicate(&self) -> (r: InterfaceDescriptionBlock)
        ensures
            r@ == self@,
    {
        InterfaceDescriptionBlock {
            linktype: self.linktype,
            snaplen: self.snaplen,
            options: slice_to_vec(self.options.as_slice()),
        }
    }
}

} // verus!
