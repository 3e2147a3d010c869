//! Verified core of the block-input tooling: the transaction wire format,
//! the chain-data companion types, the proof-journal layout and the
//! EIP-4844 block tally.

pub mod wire;
pub mod pot_compat;
pub mod hex;
pub mod blob_scan;
pub mod journal;
pub mod rpc;
