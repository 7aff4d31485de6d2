# proof-wire

The byte-level contract shared by the exchange engine and its clients: the
action, event and query types, the ABCI event encoding, the `ExecError` code
table and the trigger-policy wire payloads, with their behaviour proved in
Verus.

## Layout

- `src/` — the verified library.
  - `abci_event.rs` — `AbciEventWriter` (length-prefixed ABCI event bytes) and
    `EventCoordinates`.
  - `types.rs` — identifiers, market kinds, governance and action types, and
    their accessors; `types/event.rs` holds `Event` and its ABCI encoding,
    `types/error.rs` the `ExecError` code/meaning/message table.
  - `query.rs`, `triggers.rs` — read-model DTOs and trigger-policy payloads.
  - `render.rs`, `text.rs`, `bytes.rs` — decimal/hex/length-prefix rendering,
    UTF-8 text building, and big-endian key encodings, with the laws they obey.
- `tests/` — runtime tests of the library.
- `app/` — serde-enabled mirrors of the wire types (MessagePack field order),
  the format-aware byte-array field codec, and conversions to and from the
  library types.
