//! Outbound conversions of quote and settlement records.
//!
//! Each conversion is field-for-field: string fields keep their
//! canonical text, amounts convert through the single 64-bit
//! magnitude, optional fields propagate absence exactly, and the
//! settlement state goes through the total state mapping.

use vstd::prelude::*;

use crate::amount::{spec_amount_from_engine, FFIAmount};
use crate::engine;
use crate::state::{spec_state_from_engine, FFIMintQuoteState};

verus! {

/// A foreign-safe mint quote record.
#[derive(Clone, Debug)]
pub struct FFIMintQuote {
    pub id: String,
    pub mint_url: String,
    pub amount: FFIAmount,
    pub unit: String,
    pub request: String,
    pub state: FFIMintQuoteState,
    pub expiry: u64,
}

impl FFIMintQuote {
    /// Convert an engine mint quote into its foreign record.
    pub fn from_engine(quote: engine::MintQuote) -> (r: FFIMintQuote)
        ensures
            r.id@ == quote.id@,
            r.mint_url@ == quote.mint_url@,
            r.amount == spec_amount_from_engine(quote.amount),
            r.unit@ == quote.unit@,
            r.request@ == quote.request@,
            r.state == spec_state_from_engine(quote.state),
            r.expiry == quote.expiry,
    {
        FFIMintQuote {
            id: quote.id,
            mint_url: quote.mint_url,
            amount: FFIAmount::from_engine(quote.amount),
            unit: quote.unit,
            request: quote.request,
            state: FFIMintQuoteState::from_engine(quote.state),
            expiry: quote.expiry,
        }
    }
}

/// A foreign-safe mint-quote status poll response.
#[derive(Clone, Debug)]
pub struct FFIMintQuoteBolt11Response {
    pub quote: String,
    pub request: String,
    pub state: FFIMintQuoteState,
    pub expiry: Option<u64>,
}

impl FFIMintQuoteBolt11Response {
    /// Convert an engine status response into its foreign record.
    /// Absence of an expiry propagates exactly.
    pub fn from_engine(status: engine::MintQuoteStatus) -> (r: FFIMintQuoteBolt11Response)
        ensures
            r.quote@ == status.quote@,
            r.request@ == status.request@,
            r.state == spec_state_from_engine(status.state),
            r.expiry == status.expiry,
    {
        FFIMintQuoteBolt11Response {
            quote: status.quote,
            request: status.request,
            state: FFIMintQuoteState::from_engine(status.state),
            expiry: status.expiry,
        }
    }
}

/// A foreign-safe melt quote record.
#[derive(Clone, Debug)]
pub struct FFIMeltQuote {
    pub id: String,
    pub unit: String,
    pub amount: FFIAmount,
    pub request: String,
    pub fee_reserve: FFIAmount,
    pub expiry: u64,
    pub payment_preimage: Option<String>,
}

impl FFIMeltQuote {
    /// Convert an engine melt quote into its foreign record.
    /// Absence of a preimage propagates exactly.
    pub fn from_engine(quote: engine::MeltQuote) -> (r: FFIMeltQuote)
        ensures
            r.id@ == quote.id@,
            r.unit@ == quote.unit@,
            r.amount == spec_amount_from_engine(quote.amount),
            r.request@ == quote.request@,
            r.fee_reserve == spec_amount_from_engine(quote.fee_reserve),
            r.expiry == quote.expiry,
            option_text_eq(r.payment_preimage, quote.payment_preimage),
    {
        FFIMeltQuote {
            id: quote.id,
            unit: quote.unit,
            amount: FFIAmount::from_engine(quote.amount),
            request: quote.request,
            fee_reserve: FFIAmount::from_engine(quote.fee_reserve),
            expiry: quote.expiry,
            payment_preimage: quote.payment_preimage,
        }
    }
}

/// A foreign-safe record of an executed melt.
#[derive(Clone, Debug)]
pub struct FFIMelted {
    pub state: String,
    pub preimage: Option<String>,
    pub amount: FFIAmount,
    pub fee_paid: FFIAmount,
}

impl FFIMelted {
    /// Convert an engine melt outcome into its foreign record.
    /// Absence of a preimage propagates exactly.
    pub fn from_engine(melted: engine::Melted) -> (r: FFIMelted)
        ensures
            r.state@ == melted.state@,
            option_text_eq(r.preimage, melted.preimage),
            r.amount == spec_amount_from_engine(melted.amount),
            r.fee_paid == spec_amount_from_engine(melted.fee_paid),
    {
        FFIMelted {
            state: melted.state,
            preimage: melted.preimage,
            amount: FFIAmount::from_engine(melted.amount),
            fee_paid: FFIAmount::from_engine(melted.fee_paid),
        }
    }
}

/// Two optional texts are both absent, or both present with the same
/// characters.
pub open spec fn option_text_eq(a: Option<String>, b: Option<String>) -> bool {
    match (a, b) {
        (Option::None, Option::None) => true,
        (Option::Some(x), Option::Some(y)) => x@ == y@,
        _ => false,
    }
}

} // verus!
