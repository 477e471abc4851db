//! Amounts cross the boundary as a single unsigned 64-bit magnitude.
//!
//! The engine's native amount type is a newtype over `u64`, so the
//! engine-domain side of every amount conversion is modelled here as a
//! plain `u64`.

use vstd::prelude::*;
use vstd::string::*;

use crate::error::{spec_message, FFIError};

verus! {

/// A foreign-safe amount record: one unsigned 64-bit magnitude.
#[derive(Clone, Copy, Debug, PartialEq, Eq, Structural)]
pub struct FFIAmount {
    pub value: u64,
}

/// The engine-domain value an `FFIAmount` stands for.
pub open spec fn spec_amount_to_engine(a: FFIAmount) -> u64 {
    a.value
}

/// The record a given engine-domain amount converts to.
pub open spec fn spec_amount_from_engine(v: u64) -> FFIAmount {
    FFIAmount { value: v }
}

impl FFIAmount {
    /// Convert an engine-domain amount into its foreign record.
    pub fn from_engine(value: u64) -> (r: FFIAmount)
        ensures
            r == spec_amount_from_engine(value),
    {
        FFIAmount { value }
    }

    /// Convert the foreign record back into the engine-domain amount.
    pub fn to_engine(&self) -> (r: u64)
        ensures
            r == spec_amount_to_engine(*self),
    {
        self.value
    }
}

/// Amounts round-trip exactly: converting any representable 64-bit
/// engine amount to a foreign record and back yields the original, and
/// the same holds starting from the record.
pub proof fn lemma_amount_round_trip(v: u64, a: FFIAmount)
    ensures
        spec_amount_to_engine(spec_amount_from_engine(v)) == v,
        spec_amount_from_engine(spec_amount_to_engine(a)) == a,
{
}

/// Sum a batch of engine-domain proof amounts.
///
/// The engine reports newly minted value as a list of proofs, one
/// amount each; the total realized by a mint operation is their sum.
/// The sum succeeds if and only if it fits in 64 bits; a sum past
/// that is the engine-domain overflow failure, normalized to
/// `WalletError` with the engine's own message for it.
pub fn total_amount(amounts: &Vec<u64>) -> (r: Result<u64, FFIError>)
    ensures
        r is Ok <==> sum_of(amounts@) <= u64::MAX,
        r matches Ok(total) ==> total == sum_of(amounts@),
        r matches Err(e) ==> e is WalletError
            && spec_message(e) == "Amount Overflow"@,
{
    let mut total: u64 = 0;
    let mut i: usize = 0;
    while i < amounts.len()
        invariant
            i <= amounts@.len(),
            total == sum_of(amounts@.take(i as int)),
        decreases amounts@.len() - i,
    {
        proof {
            assert(amounts@.take(i + 1).drop_last() =~= amounts@.take(i as int));
            assert(sum_of(amounts@.take(i + 1))
                == sum_of(amounts@.take(i as int)) + amounts@[i as int]);
        }
        if total > u64::MAX - amounts[i] {
            proof {
                lemma_sum_of_take_monotonic(amounts@, i + 1);
            }
            return Err(FFIError::wallet_error(String::from_str("Amount Overflow")));
        }
        total = total + amounts[i];
        i = i + 1;
    }
    proof {
        assert(amounts@.take(amounts@.len() as int) =~= amounts@);
    }
    Ok(total)
}

/// The mathematical sum of a sequence of amounts.
pub open spec fn sum_of(s: Seq<u64>) -> int
    decreases s.len(),
{
    if s.len() == 0 {
        0
    } else {
        sum_of(s.drop_last()) + s.last()
    }
}

/// A prefix of a sequence of amounts never sums to more than the whole.
proof fn lemma_sum_of_take_monotonic(s: Seq<u64>, n: int)
    requires
        0 <= n <= s.len(),
    ensures
        sum_of(s.take(n)) <= sum_of(s),
    decreases s.len() - n,
{
    if n < s.len() {
        lemma_sum_of_take_monotonic(s, n + 1);
        assert(s.take(n + 1).drop_last() =~= s.take(n));
        assert(sum_of(s.take(n + 1)) == sum_of(s.take(n)) + s[n]);
    } else {
        assert(s.take(n) =~= s);
    }
}

} // verus!
