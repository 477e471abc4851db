//! A foreign-binding layer for an ecash wallet engine.
//!
//! The engine itself (blind signatures, proof selection, Lightning
//! settlement) lives in outside crates; this library holds the verified
//! part of the boundary: conversions between engine-domain values and
//! plain foreign-safe records, error normalization, mnemonic handling,
//! and the decision logic of the best-effort mint-info lookup.

pub mod amount;
pub mod currency;
pub mod engine;
pub mod error;
pub mod mint_info;
pub mod mnemonic;
pub mod quotes;
pub mod send;
pub mod state;
pub mod store;
pub mod token;
