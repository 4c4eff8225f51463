//! State of a pcapng capture, carried from block to block.

use crate::endianness::Endianness;
use crate::errors::PcapError;
use crate::pcapng::blocks::interface_description::{
    spec_parse_interface_description, InterfaceDescriptionBlock, SpecInterfaceDescription,
    INTERFACE_DESCRIPTION_BLOCK,
};
use crate::pcapng::blocks::raw::{RawBlock, SpecRawBlock};
use crate::pcapng::blocks::section_header::{
    spec_default_section_header, spec_parse_section_header, SectionHeaderBlock, SpecSectionHeader,
    SECTION_HEADER_BLOCK,
};
use crate::pcapng::blocks::{Block, SpecBlock};
use vstd::prelude::*;

verus! {

/// State of a capture: the current section and its interfaces.
#[derive(Debug)]
pub struct PcapNgState {
    /// Section Header Block of the current section.
    pub section: SectionHeaderBlock,
    /// Interface Description Blocks of the current section, in order.
    pub interfaces: Vec<InterfaceDescriptionBlock>,
}

/// Mathematical model of a [`PcapNgState`].
pub struct SpecState {
    pub section: SpecSectionHeader,
    pub interfaces: Seq<SpecInterfaceDescription>,
}

impl View for PcapNgState {
    type V = SpecState;

    open spec fn view(&self) -> SpecState {
        SpecState {
            section: self.section@,
            interfaces: self.interfaces@.map_values(|i: InterfaceDescriptionBlock| i@),
        }
    }
}

/// The state before any block was read.
pub open spec fn spec_default_state() -> SpecState {
    SpecState {
        section: spec_default_section_header(),
        interfaces: Seq::empty(),
    }
}

/// The state after block `b`: a section header opens a new section with no
/// interfaces, an interface description adds an interface, and other blocks
/// leave the state as it is.
pub open spec fn spec_update_from_block(st: SpecState, b: SpecBlock) -> SpecState {
    match b {
        SpecBlock::SectionHeader(h) => SpecState { section: h, interfaces: Seq::empty(), ..st },
        SpecBlock::InterfaceDescription(i) => SpecState { interfaces: st.interfaces.push(i), ..st },
        _ => st,
    }
}

/// The state after the unparsed block `raw`, read in byte order `e`, or the
/// error met while parsing the body of a section header or interface description.
pub open spec fn spec_update_from_raw_block(st: SpecState, e: Endianness, raw: SpecRawBlock) -> Result<
    SpecState,
    PcapError,
> {
    if raw.type_ == SECTION_HEADER_BLOCK {
        match spec_parse_section_header(raw.body) {
            Ok((_, h)) => Ok(spec_update_from_block(st, SpecBlock::SectionHeader(h))),
            Err(x) => Err(x),
        }
    } else if raw.type_ == INTERFACE_DESCRIPTION_BLOCK {
        match spec_parse_interface_description(e, raw.body) {
            Ok((_, i)) => Ok(spec_update_from_block(st, SpecBlock::InterfaceDescription(i))),
            Err(x) => Err(x),
        }
    } else {
        Ok(st)
    }
}

/// The state after the blocks `bs`, read one after the other from state `st`.
pub open spec fn spec_update_from_blocks(st: SpecState, bs: Seq<SpecBlock>) -> SpecState
    decreases bs.len(),
{
    if bs.len() == 0 {
        st
    } else {
        spec_update_from_block(spec_update_from_blocks(st, bs.drop_last()), bs.last())
    }
}

/// The last section header among the blocks `bs`, or `section` when they hold none.
pub open spec fn spec_last_section(section: SpecSectionHeader, bs: Seq<SpecBlock>) -> SpecSectionHeader
    decreases bs.len(),
{
    if bs.len() == 0 {
        section
    } else {
        match bs.last() {
            SpecBlock::SectionHeader(h) => h,
            _ => spec_last_section(section, bs.drop_last()),
        }
    }
}

/// The interface descriptions among the blocks `bs` after their last section
/// header, in order; when they hold no section header, those of `bs` after `interfaces`.
pub open spec fn spec_interfaces_since_section(
    interfaces: Seq<SpecInterfaceDescription>,
    bs: Seq<SpecBlock>,
) -> Seq<SpecInterfaceDescription>
    decreases bs.len(),
{
    if bs.len() == 0 {
        interfaces
    } else {
        match bs.last() {
            SpecBlock::SectionHeader(_) => Seq::empty(),
            SpecBlock::InterfaceDescription(i) => spec_interfaces_since_section(interfaces, bs.drop_last()).push(i),
            _ => spec_interfaces_since_section(interfaces, bs.drop_last()),
        }
    }
}

/// After any blocks are read, the section is the last section header read, and
/// the interfaces are the interface descriptions read since it, in order.
pub proof fn lemma_state_after_blocks(st: SpecState, bs: Seq<SpecBlock>)
    ensures
        spec_update_from_blocks(st, bs).section == spec_last_section(st.section, bs),
        spec_update_from_blocks(st, bs).interfaces == spec_interfaces_since_section(st.interfaces, bs),
    decreases bs.len(),
{
    if bs.len() > 0 {
        lemma_state_after_blocks(st, bs.drop_last());
    }
}

impl PcapNgState {
    /// Updates the state from a parsed block.
    pub fn update_from_block(&mut self, block: &Block) -> (r: Result<(), PcapError>)
        ensures
            r is Ok,
            final(self)@ == spec_update_from_block(old(self)@, block@),
    {
        match block {
            Block::SectionHeader(h) => {
                self.section = h.duplicate();
                self.interfaces.clear();
                assert(self@.interfaces =~= Seq::<SpecInterfaceDescription>::empty());
            },
            Block::InterfaceDescription(i) => {
                self.interfaces.push(i.duplicate());
                assert(self@.interfaces =~= old(self)@.interfaces.push(i@));
            },
            _ => {},
        }
        Ok(())
    }

    /// Updates the state from an unparsed block, read in byte order `e`.
    pub fn update_from_raw_block(&mut self, e: Endianness, raw: &RawBlock) -> (r: Result<(), PcapError>)
        ensures
            match spec_update_from_raw_block(old(self)@, e, raw@) {
                Ok(st) => r is Ok && final(self)@ == st,
                Err(x) => r == Err::<(), PcapError>(x) && final(self)@ == old(self)@,
            },
    {
        if raw.type_ == SECTION_HEADER_BLOCK {
            match SectionHeaderBlock::from_slice(raw.body.as_slice()) {
                Ok((_, h)) => {
                    self.section = h;
                    self.interfaces.clear();
                    assert(self@.interfaces =~= Seq::<SpecInterfaceDescription>::empty());
                    Ok(())
                },
                Err(x) => Err(x),
            }
        } else if raw.type_ == INTERFACE_DESCRIPTION_BLOCK {
            match InterfaceDescriptionBlock::from_slice(e, raw.body.as_slice()) {
                Ok((_, i)) => {
                    let ghost iv = i@;
                    self.interfaces.push(i);
                    assert(self@.interfaces =~= old(self)@.interfaces.push(iv));
                    Ok(())
                },
                Err(x) => Err(x),
            }
        } else {
            Ok(())
        }
    }
}

impl Default for PcapNgState {
    fn default() -> (r: PcapNgState)
        ensures
            r@ == spec_default_state(),
    {
        let r = PcapNgState {
            section: SectionHeaderBlock::default(),
            interfaces: Vec::new(),
        };
        assert(r@.interfaces =~= Seq::<SpecInterfaceDescription>::empty());
        r
    }
}

} // verus!
