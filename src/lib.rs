//! Verified operation-processing engine of an on-ledger NFT issuance program:
//! address derivation and validation, record layouts, payload decoding and the
//! handlers that turn one operation into an ordered plan of ledger effects.

pub mod address;
pub mod error;
pub mod codec;
pub mod state;
pub mod processor;
pub mod instruction;
