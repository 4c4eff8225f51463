//! Parsing of pcapng captures: block framing, the blocks a capture is made of,
//! the state a capture carries from block to block, and custom blocks whose
//! payload types are registered by their Private Enterprise Number.

pub mod endianness;
pub mod errors;

pub use endianness::Endianness;
pub use errors::PcapError;
pub mod pcapng;
pub mod read_buffer;
