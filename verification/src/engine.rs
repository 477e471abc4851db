//! Plain-value images of the engine-domain types.
//!
//! The wallet engine's own types (amounts, quotes, tokens, send
//! options) are opaque outside crates' types; the conversions this
//! library verifies work on the plain values the boundary actually
//! reads from them. The unverified shell around the library builds
//! these images at the boundary — field by field, rendering URLs,
//! units and settlement states to their canonical text — and converts
//! the inbound images back into the engine's own types, one for one.

use std::collections::HashMap;
use vstd::prelude::*;

verus! {

/// The settlement states a mint quote can report.
///
/// The engine's enumeration today is `Unpaid`, `Paid` and `Issued`;
/// `Unrecognized` stands for any state a future engine might add, so
/// that the outbound mapping stays total when the engine's enumeration
/// grows.
#[derive(Clone, Copy, Debug, PartialEq, Eq, Structural)]
pub enum MintQuoteState {
    Unpaid,
    Paid,
    Issued,
    Unrecognized,
}

/// A mint quote as the engine reports it: a payment request for a
/// given amount, with its settlement state and expiry.
#[derive(Clone, Debug)]
pub struct MintQuote {
    pub id: String,
    /// The mint URL in its canonical text rendering.
    pub mint_url: String,
    pub amount: u64,
    /// The currency unit in its canonical text rendering.
    pub unit: String,
    pub request: String,
    pub state: MintQuoteState,
    pub expiry: u64,
}

/// The engine's answer to a mint-quote status poll.
#[derive(Clone, Debug)]
pub struct MintQuoteStatus {
    pub quote: String,
    pub request: String,
    pub state: MintQuoteState,
    pub expiry: Option<u64>,
}

/// A melt quote: a quote for paying an external payment request.
#[derive(Clone, Debug)]
pub struct MeltQuote {
    pub id: String,
    /// The currency unit in its canonical text rendering.
    pub unit: String,
    pub amount: u64,
    pub request: String,
    pub fee_reserve: u64,
    pub expiry: u64,
    pub payment_preimage: Option<String>,
}

/// The outcome of an executed melt (payment).
#[derive(Clone, Debug)]
pub struct Melted {
    /// The settlement state in its canonical text rendering.
    pub state: String,
    pub preimage: Option<String>,
    pub amount: u64,
    pub fee_paid: u64,
}

/// A transferable token as the engine hands it out.
///
/// Resolving the token's mint URL can fail inside the engine; the
/// boundary records the outcome, and the conversion turns a failure
/// into a typed error rather than defaulting.
#[derive(Debug)]
pub struct Token {
    /// The serialized token text.
    pub encoded: String,
    /// The resolved mint URL, or the failure's textual description.
    pub mint_url: Result<String, String>,
    pub memo: Option<String>,
    /// The token's unit, absent when the token does not carry one.
    pub unit: Option<String>,
}

/// The fee breakdown of a prepared (uncommitted) send.
#[derive(Clone, Copy, Debug, PartialEq, Eq, Structural)]
pub struct PreparedSend {
    pub amount: u64,
    pub swap_fee: u64,
    pub send_fee: u64,
    pub total_fee: u64,
}

/// The currency units this boundary passes inbound to the engine.
///
/// The engine's own enumeration is wider (it has authentication and
/// custom units), but no conversion of this boundary produces those.
#[derive(Clone, Copy, Debug, PartialEq, Eq, Structural)]
pub enum CurrencyUnit {
    Sat,
    Msat,
    Usd,
    Eur,
}

/// The engine's denomination split policy for newly created proofs.
///
/// `NoSplit` is the engine's own no-preference policy (the least
/// amount of proofs), which is also the engine's default.
#[derive(Clone, Debug)]
pub enum SplitTarget {
    /// Least amount of proofs: the engine's default policy.
    NoSplit,
    /// Aim for proofs of the given value.
    Value(u64),
    /// Split into exactly the given amounts.
    Values(Vec<u64>),
}

/// Online/offline exactness-or-tolerance policy of a send.
#[derive(Clone, Copy, Debug, PartialEq, Eq, Structural)]
pub enum SendKind {
    OnlineExact,
    OnlineTolerance(u64),
    OfflineExact,
    OfflineTolerance(u64),
}

/// A memo attached to a send.
#[derive(Clone, Debug)]
pub struct SendMemo {
    pub memo: String,
    pub include_memo: bool,
}

/// The send options the engine consumes.
///
/// The engine's own options also carry spending conditions; this
/// boundary does not support them, and every conversion leaves them
/// absent (a documented gap, not an omission).
#[derive(Clone, Debug)]
pub struct SendOptions {
    pub memo: Option<SendMemo>,
    pub amount_split_target: SplitTarget,
    pub send_kind: SendKind,
    pub include_fee: bool,
    pub metadata: HashMap<String, String>,
    pub max_proofs: Option<usize>,
}

} // verus!
