//! The pcapng format: its blocks, the state of a capture and the parser.

pub mod blocks;
pub mod parser;
pub mod state;

pub use parser::PcapNgParser;
pub use state::PcapNgState;
