# pcap_file (pcapng parsing, verified with Verus)

A parser for pcapng captures held in byte slices, with contracts proved by Verus.

- `src/endianness.rs`: byte order of a section; fixed-width numbers read and
  written through `byteorder_slice`, with their contracts.
- `src/errors.rs`: `PcapError`.
- `src/pcapng/blocks/`: block framing (`raw.rs`), the section header,
  interface description, enhanced packet, custom and unknown blocks, and
  `Block`, each with a specification of its parse. `custom.rs` also holds the
  registry of custom payload parsers (`PcapNgCustomParsers`): the payload of a
  custom block is parsed by the payload type registered for its Private
  Enterprise Number, in the byte order of the section that the state holds.
- `src/pcapng/state.rs`: the state a capture carries from block to block.
- `src/pcapng/parser.rs`: `PcapNgParser`, with the laws that relate
  `next_block`, `next_item` and `update_state`, and those on a run of reads.
- `src/read_buffer.rs`: the `Parser` trait, whose methods carry contracts
  over relations that each parser defines.

## Custom payloads

Payload types are written by the application: `PcapNgCustom` (writing a
payload) and `PcapNgCustomReader` (reading one) each carry a relation
(`write_outcome`, `from_slice_outcome`) that the method keeps to. A payload
type may define it; by default it admits every outcome, so what the library
proves of a payload is what it does around the payload's own code: which bytes
reach it, where its bytes go, and how its result or error is passed on.

The trait objects that hold payloads and payload parsers are used as Verus
accepts them, which shapes this module:

- The payload trait has no `as_any`, `clone_to_box` or `eq_payload`, and
  `CustomBlock` and `Box<dyn PcapNgCustom>` have no `Clone`, `PartialEq` or
  `Debug`: Verus refuses trait methods that return `&dyn Any` or a boxed trait
  object of the same trait, and `Debug` as a supertrait. A payload is compared
  by the bytes it writes instead.
- A payload writes into a `Vec<u8>`, and the block's `write_to` hands it a
  fresh vector whose bytes it then appends, so the payload can only add bytes
  after the block's number.
- The registry of payload parsers is held by `PcapNgParser` and passed to the
  block parsers next to the state, not kept inside `PcapNgState`: a parser
  object stored in the state and taking the state as an argument makes a type
  cycle that Verus refuses. Each registered parser is a `CustomReaderFor<T>`
  trait object, since Verus does not support function pointer types.
- Verus keeps no fact about a boxed trait object once it is moved into a map,
  a struct, a tuple or an option. So the contracts say which object a block
  or a registry entry holds where Verus can prove it (`===` with the object
  given), and the registry's contract states which numbers it holds and that
  the entries of the other numbers are kept, but not which parser the new
  entry is.
