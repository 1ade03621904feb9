# witnet_core

Epoch bookkeeping and the binary message format of a Witnet node, verified
with Verus.

- `src/epoch.rs`: which epoch a timestamp falls in, and when an epoch starts,
  with overflow checks; the laws that tie the two together.
- `src/chain.rs`, `src/types.rs`: the protocol messages and their abstract
  values.
- `src/wire.rs`, `src/protocol.rs`: reading the flatbuffers tables of a
  message from its bytes, each reader proved against a spec function on the
  bytes.
- `src/decode.rs`: from the tables of a message to the message
  (`TryFrom<Vec<u8>> for Message`).
- `src/builder.rs`: the flatbuffers builder behind trusted wrappers, with a
  model of the objects written through it and of how a finished buffer reads
  back.
- `src/encode.rs`: from a message to its bytes (`Message::into`), with the
  objects each writer leaves in the builder, a bound on the bytes each
  message takes, and the proof that the bytes read back, table by table, as
  the message.
- `src/roundtrip.rs`: the proof that decoding the bytes of an encoded message
  gives the message back.
- `app/`: the actix actors around the epoch manager and the block manager.

The trusted items are the wrappers in `src/builder.rs` (flatbuffers'
`FlatBufferBuilder`, with how many bytes each step writes) and one in
`src/wire.rs` (`String::from_utf8`). Little-endian scalars are read byte by
byte in verified code.
