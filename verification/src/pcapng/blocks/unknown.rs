//! Blocks of a type that this library does not parse.

use vstd::prelude::*;

verus! {

/// A block whose type this library does not parse: its type, length and body are kept.
#[derive(Debug, PartialEq, Eq)]
pub struct UnknownBlock {
    /// Block type.
    pub type_: u32,
    /// Total length of the block.
    pub length: u32,
    /// Body of the block.
    pub value: Vec<u8>,
}

/// Mathematical model of an [`UnknownBlock`].
pub struct SpecUnknownBlock {
    pub type_: u32,
    pub length: u32,
    pub value: Seq<u8>,
}

impl View for UnknownBlock {
    type V = SpecUnknownBlock;

    open spec fn view(&self) -> SpecUnknownBlock {
        SpecUnknownBlock { type_: self.type_, length: self.length, value: self.value@ }
    }
}

} // verus!
