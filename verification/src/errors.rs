use vstd::prelude::*;

verus! {

/// Errors of the pcapng parser.
#[derive(Debug, PartialEq, Eq)]
pub enum PcapError {
    /// The data ends before the item being parsed: more data is needed.
    IncompleteBuffer,
    /// A number was read past the end of a block body.
    UnexpectedEof,
    /// A field holds a value that the format does not allow.
    InvalidField(&'static str),
    /// A custom block carries a Private Enterprise Number for which no payload type is registered.
    UnknownPEN(u32),
}

} // verus!
