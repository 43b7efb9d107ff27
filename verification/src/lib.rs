//! A verified model of an asset "detach" subsystem: owners of content-addressed
//! on-chain assets request migration to an external Ethereum-family chain, a
//! node-local signing worker derives an external-chain key and produces a
//! recoverable signature over a canonical payload, and an on-chain admission
//! and execution state machine records the export with replay protection.

pub mod bytes;
pub mod crypto;
pub mod custodian;
pub mod keyset;
pub mod laws;
pub mod maps;
pub mod node;
pub mod pallet;
pub mod payload;
pub mod signer;
pub mod types;
