//! Inbound conversions of send options, and the outbound conversion
//! of a prepared send's fee breakdown.

use vstd::prelude::*;

use crate::amount::{spec_amount_from_engine, FFIAmount};
use crate::engine;

verus! {

/// A foreign-safe send memo.
#[derive(Clone, Debug)]
pub struct FFISendMemo {
    pub memo: String,
    pub include_memo: bool,
}

impl FFISendMemo {
    /// Convert the foreign memo into the engine's memo, field for
    /// field.
    pub fn to_engine(self) -> (r: engine::SendMemo)
        ensures
            r.memo@ == self.memo@,
            r.include_memo == self.include_memo,
    {
        engine::SendMemo { memo: self.memo, include_memo: self.include_memo }
    }
}

/// A foreign-safe denomination split policy.
///
/// `NoSplit` asks for the least amount of proofs; `DefaultPolicy`
/// defers to the engine's default, which is that same no-preference
/// policy.
#[derive(Clone, Copy, Debug, PartialEq, Eq, Structural)]
pub enum FFISplitTarget {
    NoSplit,
    DefaultPolicy,
}

/// The engine split target each foreign policy maps to. Both foreign
/// policies land on the engine's no-preference target, because that
/// target is also the engine's default.
pub open spec fn spec_split_target_to_engine(t: FFISplitTarget) -> engine::SplitTarget {
    engine::SplitTarget::NoSplit
}

impl FFISplitTarget {
    /// Convert the foreign split policy into the engine's.
    pub fn to_engine(self) -> (r: engine::SplitTarget)
        ensures
            r == spec_split_target_to_engine(self),
    {
        match self {
            FFISplitTarget::NoSplit => engine::SplitTarget::NoSplit,
            FFISplitTarget::DefaultPolicy => engine::SplitTarget::NoSplit,
        }
    }
}

/// A foreign-safe send kind: online or offline, exact or within a
/// tolerance carried as an amount.
#[derive(Clone, Copy, Debug, PartialEq, Eq, Structural)]
pub enum FFISendKind {
    OnlineExact,
    OnlineTolerance { tolerance: FFIAmount },
    OfflineExact,
    OfflineTolerance { tolerance: FFIAmount },
}

/// The engine send kind each foreign send kind maps to.
pub open spec fn spec_send_kind_to_engine(k: FFISendKind) -> engine::SendKind {
    match k {
        FFISendKind::OnlineExact => engine::SendKind::OnlineExact,
        FFISendKind::OnlineTolerance { tolerance } => engine::SendKind::OnlineTolerance(
            tolerance.value,
        ),
        FFISendKind::OfflineExact => engine::SendKind::OfflineExact,
        FFISendKind::OfflineTolerance { tolerance } => engine::SendKind::OfflineTolerance(
            tolerance.value,
        ),
    }
}

/// The foreign send kind an engine send kind converts back to.
pub open spec fn spec_send_kind_from_engine(k: engine::SendKind) -> FFISendKind {
    match k {
        engine::SendKind::OnlineExact => FFISendKind::OnlineExact,
        engine::SendKind::OnlineTolerance(t) => FFISendKind::OnlineTolerance {
            tolerance: spec_amount_from_engine(t),
        },
        engine::SendKind::OfflineExact => FFISendKind::OfflineExact,
        engine::SendKind::OfflineTolerance(t) => FFISendKind::OfflineTolerance {
            tolerance: spec_amount_from_engine(t),
        },
    }
}

impl FFISendKind {
    /// Convert the foreign send kind into the engine's, carrying the
    /// tolerance amount through exactly.
    pub fn to_engine(self) -> (r: engine::SendKind)
        ensures
            r == spec_send_kind_to_engine(self),
    {
        match self {
            FFISendKind::OnlineExact => engine::SendKind::OnlineExact,
            FFISendKind::OnlineTolerance { tolerance } => engine::SendKind::OnlineTolerance(
                tolerance.to_engine(),
            ),
            FFISendKind::OfflineExact => engine::SendKind::OfflineExact,
            FFISendKind::OfflineTolerance { tolerance } => engine::SendKind::OfflineTolerance(
                tolerance.to_engine(),
            ),
        }
    }
}

/// Send kinds round-trip: converting any foreign send kind to the
/// engine's and back yields the original, tolerance included.
pub proof fn lemma_send_kind_round_trip(k: FFISendKind)
    ensures
        spec_send_kind_from_engine(spec_send_kind_to_engine(k)) == k,
{
}

/// Foreign-safe send options.
///
/// The engine's options also carry spending conditions; this boundary
/// has no field for them and always hands the engine an absent
/// condition (a documented gap).
#[derive(Clone, Debug)]
pub struct FFISendOptions {
    pub memo: Option<FFISendMemo>,
    pub amount_split_target: FFISplitTarget,
    pub send_kind: FFISendKind,
    pub include_fee: bool,
    pub metadata: std::collections::HashMap<String, String>,
    pub max_proofs: Option<u64>,
}

impl FFISendOptions {
    /// Convert the foreign send options into the engine's options.
    ///
    /// Every field carries over exactly; the proof-count bound
    /// converts to the machine's word size as the engine expects it.
    pub fn to_engine(self) -> (r: engine::SendOptions)
        ensures
            match (r.memo, self.memo) {
                (Option::None, Option::None) => true,
                (Option::Some(em), Option::Some(fm)) => em.memo@ == fm.memo@
                    && em.include_memo == fm.include_memo,
                _ => false,
            },
            r.amount_split_target == spec_split_target_to_engine(self.amount_split_target),
            r.send_kind == spec_send_kind_to_engine(self.send_kind),
            r.include_fee == self.include_fee,
            r.metadata == self.metadata,
            match (r.max_proofs, self.max_proofs) {
                (Option::None, Option::None) => true,
                (Option::Some(rp), Option::Some(fp)) => rp == fp as usize,
                _ => false,
            },
    {
        let memo = match self.memo {
            Some(m) => Some(m.to_engine()),
            None => None,
        };
        let max_proofs = match self.max_proofs {
            Some(p) => Some(p as usize),
            None => None,
        };
        engine::SendOptions {
            memo,
            amount_split_target: self.amount_split_target.to_engine(),
            send_kind: self.send_kind.to_engine(),
            include_fee: self.include_fee,
            metadata: self.metadata,
            max_proofs,
        }
    }
}

/// A foreign-safe breakdown of a prepared (uncommitted) send.
#[derive(Clone, Copy, Debug, PartialEq, Eq, Structural)]
pub struct FFIPreparedSend {
    pub amount: FFIAmount,
    pub swap_fee: FFIAmount,
    pub send_fee: FFIAmount,
    pub total_fee: FFIAmount,
}

/// The foreign record a prepared send's breakdown converts to.
pub open spec fn spec_prepared_send_from_engine(p: engine::PreparedSend) -> FFIPreparedSend {
    FFIPreparedSend {
        amount: spec_amount_from_engine(p.amount),
        swap_fee: spec_amount_from_engine(p.swap_fee),
        send_fee: spec_amount_from_engine(p.send_fee),
        total_fee: spec_amount_from_engine(p.total_fee),
    }
}

impl FFIPreparedSend {
    /// Convert an engine prepared-send breakdown into its foreign
    /// record. Preparation never commits anything: the conversion is a
    /// pure function of the breakdown, so preparing twice converts to
    /// the same record whenever the engine reports the same breakdown.
    pub fn from_engine(p: engine::PreparedSend) -> (r: FFIPreparedSend)
        ensures
            r == spec_prepared_send_from_engine(p),
    {
        FFIPreparedSend {
            amount: FFIAmount::from_engine(p.amount),
            swap_fee: FFIAmount::from_engine(p.swap_fee),
            send_fee: FFIAmount::from_engine(p.send_fee),
            total_fee: FFIAmount::from_engine(p.total_fee),
        }
    }
}

} // verus!
