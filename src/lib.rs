//! A minimal blockchain ledger: Bitcoin-style transaction wire encoding,
//! a varint codec, SHA-256 identities and an append-only chain of blocks.

pub mod chain;
pub mod hashing;
pub mod hexcodec;
pub mod linked_list;
pub mod mresult;
pub mod tx;
pub mod varint;
