//! The outbound mapping of mint-quote settlement states.

use vstd::prelude::*;

use crate::engine;

verus! {

/// A foreign-safe mint-quote settlement state.
///
/// The foreign enumeration is strictly smaller than what a future
/// engine may report: states the boundary does not recognize collapse
/// to `Unpaid`. This is a deliberate, lossy default — see
/// [`lemma_state_mapping_total`].
#[derive(Clone, Copy, Debug, PartialEq, Eq, Structural)]
pub enum FFIMintQuoteState {
    Unpaid,
    Paid,
    Issued,
}

/// The foreign state each engine-side state maps to: the three
/// recognized states map to their namesakes, anything else to
/// `Unpaid`.
pub open spec fn spec_state_from_engine(s: engine::MintQuoteState) -> FFIMintQuoteState {
    match s {
        engine::MintQuoteState::Unpaid => FFIMintQuoteState::Unpaid,
        engine::MintQuoteState::Paid => FFIMintQuoteState::Paid,
        engine::MintQuoteState::Issued => FFIMintQuoteState::Issued,
        engine::MintQuoteState::Unrecognized => FFIMintQuoteState::Unpaid,
    }
}

impl FFIMintQuoteState {
    /// Convert an engine-side settlement state to the foreign one.
    pub fn from_engine(state: engine::MintQuoteState) -> (r: FFIMintQuoteState)
        ensures
            r == spec_state_from_engine(state),
    {
        match state {
            engine::MintQuoteState::Unpaid => FFIMintQuoteState::Unpaid,
            engine::MintQuoteState::Paid => FFIMintQuoteState::Paid,
            engine::MintQuoteState::Issued => FFIMintQuoteState::Issued,
            engine::MintQuoteState::Unrecognized => FFIMintQuoteState::Unpaid,
        }
    }
}

/// The state mapping is total: every engine-side state has a defined
/// foreign state, the recognized states map to their namesakes, and
/// any state outside the recognized three resolves to `Unpaid` rather
/// than failing.
pub proof fn lemma_state_mapping_total()
    ensures
        spec_state_from_engine(engine::MintQuoteState::Unpaid) == FFIMintQuoteState::Unpaid,
        spec_state_from_engine(engine::MintQuoteState::Paid) == FFIMintQuoteState::Paid,
        spec_state_from_engine(engine::MintQuoteState::Issued) == FFIMintQuoteState::Issued,
        forall|s: engine::MintQuoteState|
            !(s is Unpaid || s is Paid || s is Issued)
                ==> spec_state_from_engine(s) == FFIMintQuoteState::Unpaid,
{
}

} // verus!
