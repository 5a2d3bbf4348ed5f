//! A Cashu-style ecash mint node core: the protocol engine that governs
//! mint quotes, melt quotes, swaps and the proof lifecycle, together with
//! the keyset cache, the response-idempotence cache and liquidity dispatch.
//!
//! The engine is written against plain values: remote effects (database,
//! signer RPC, liquidity backends) are performed by the caller, which feeds
//! their results back into the engine as arguments.

pub mod amount;
pub mod bytes;
pub mod protocol;
pub mod hexcodec;
pub mod digest;
pub mod ids;
pub mod error;
pub mod keyset;
pub mod quote;
pub mod store;
pub mod response_cache;
pub mod fingerprint;
pub mod config;
pub mod liquidity;
pub mod node;
pub mod swap;
pub mod mint;
pub mod melt;
pub mod bootstrap;
pub mod info;
pub mod wire;
