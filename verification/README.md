# zeth_core

Verified pieces of a block-input toolchain for an Ethereum zk prover.

- `src/wire.rs` — the transaction wire format: the EIP-2718 bytes of a
  transaction as a block holds them (type byte, then the RLP list, for typed
  transactions); encoding, splitting and decoding, their round trip, and the
  wire hash.
- `src/pot_compat.rs` — header and block forms with plain byte fields, whose
  transactions also travel as wire bytes, and how a block's transactions are
  rebuilt from them; withdrawals kept as RLP and rebuilt.
- `src/hex.rs`, `src/rpc.rs` — base-16 quantities as JSON-RPC writes them, and
  how a JSON-RPC reply is read.
- `src/blob_scan.rs` — the tally of blob transactions over a run of blocks.
- `src/journal.rs` — the public journal layout of a validation run and the
  witness that carries a run's encoded inputs.
- `app/` — the command-line blob analyzer (HTTP, JSON, printing) and the
  serde forms of the header and block types with their alloy conversions.
