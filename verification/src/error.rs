//! Error normalization: the boundary exposes exactly four error kinds.
//!
//! Every failure the wallet engine or its persistence layer can surface
//! is collapsed into `WalletError` with the original error's textual
//! description preserved; malformed caller input is `InvalidInput`;
//! `NetworkError` is reserved for direct network-layer failures (no
//! conversion path raises it today); `InternalError` marks defects of
//! this adapter itself. No structured field of an outside error
//! survives the boundary, only its message.

use vstd::prelude::*;

verus! {

/// The four foreign-visible error kinds.
#[derive(Clone, Debug)]
pub enum FFIError {
    /// Any failure surfaced by the wallet engine or its persistence layer.
    WalletError { msg: String },
    /// Malformed caller-supplied data.
    InvalidInput { msg: String },
    /// Reserved for direct network-layer failures.
    NetworkError { msg: String },
    /// A defect in this adapter itself.
    InternalError { msg: String },
}

/// The human-readable message carried by an error, whatever its kind.
pub open spec fn spec_message(e: FFIError) -> Seq<char> {
    match e {
        FFIError::WalletError { msg } => msg@,
        FFIError::InvalidInput { msg } => msg@,
        FFIError::NetworkError { msg } => msg@,
        FFIError::InternalError { msg } => msg@,
    }
}

impl FFIError {
    /// Normalize an engine or persistence failure, given its textual
    /// description: the kind is always `WalletError` and the message is
    /// kept verbatim.
    pub fn wallet_error(msg: String) -> (e: FFIError)
        ensures
            e is WalletError,
            spec_message(e) == msg@,
    {
        FFIError::WalletError { msg }
    }

    /// An `InvalidInput` error with the given message.
    pub fn invalid_input(msg: String) -> (e: FFIError)
        ensures
            e is InvalidInput,
            spec_message(e) == msg@,
    {
        FFIError::InvalidInput { msg }
    }

    /// An `InternalError` with the given message.
    pub fn internal_error(msg: String) -> (e: FFIError)
        ensures
            e is InternalError,
            spec_message(e) == msg@,
    {
        FFIError::InternalError { msg }
    }

    /// The message, for callers that want to display the error.
    pub fn message(&self) -> (m: String)
        ensures
            m@ == spec_message(*self),
    {
        match self {
            FFIError::WalletError { msg } => msg.clone(),
            FFIError::InvalidInput { msg } => msg.clone(),
            FFIError::NetworkError { msg } => msg.clone(),
            FFIError::InternalError { msg } => msg.clone(),
        }
    }

    /// Whether this error reports malformed caller input.
    pub fn is_invalid_input(&self) -> (r: bool)
        ensures
            r == (*self is InvalidInput),
    {
        match self {
            FFIError::InvalidInput { .. } => true,
            _ => false,
        }
    }
}

} // verus!
