//! A minimal append-only ledger core: blocks bound to their predecessor by a
//! SHA-512 hash, sealed by a proof-of-work search over a nonce space.
//!
//! The library covers block construction and sealing: how a block's identity
//! (its hash) is derived from its contents and from the nonce found by the
//! search, and the predicate that a sealed block's hash must satisfy.

pub mod block;
pub mod encoding;
pub mod hashing;
pub mod laws;
pub mod time;
pub mod transaction;
