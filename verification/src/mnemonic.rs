//! Mnemonic phrases: generation, and the deterministic expansion of a
//! phrase to the fixed-length seed a wallet is keyed from.
//!
//! Both lean on the `bip39` crate. What that crate computes is named,
//! not restated: `is_valid_mnemonic` is acceptance by its parser, and
//! `seed_of` is the seed its key-stretching derives from a phrase
//! (with an empty passphrase). Everything this module promises about
//! those names is what the crate's own documentation gives: a freshly
//! generated phrase is accepted by the parser, and the seed is a
//! function of the phrase alone.

use vstd::prelude::*;
use vstd::string::*;

use crate::error::{spec_message, FFIError};

verus! {

/// Whether `bip39::Mnemonic::parse` accepts this text as a mnemonic
/// phrase.
pub uninterp spec fn is_valid_mnemonic(s: Seq<char>) -> bool;

/// The 64-byte seed `bip39::Mnemonic::to_seed_normalized` derives from
/// a valid phrase with the empty passphrase.
pub uninterp spec fn seed_of(s: Seq<char>) -> Seq<u8>;

/// Relies on `bip39::Mnemonic::generate` and its display rendering: a
/// freshly generated twelve-word mnemonic, rendered to text, is a
/// phrase that `bip39::Mnemonic::parse` accepts.
#[verifier::external_body]
fn bip39_generate_twelve() -> (r: Result<String, String>)
    ensures
        r matches Ok(phrase) ==> is_valid_mnemonic(phrase@),
{
    match bip39::Mnemonic::generate(bip39::WordCount::Words12) {
        Ok(m) => Ok(m.to_string()),
        Err(e) => Err(e.to_string()),
    }
}

/// Relies on `bip39::Mnemonic::parse` and
/// `bip39::Mnemonic::to_seed_normalized`: parsing accepts exactly the
/// valid mnemonic texts, and the seed derived from an accepted phrase
/// (empty passphrase) is 64 bytes and depends on the phrase alone.
#[verifier::external_body]
fn bip39_parse_to_seed(words: &str) -> (r: Result<Vec<u8>, String>)
    ensures
        r is Ok <==> is_valid_mnemonic(words@),
        r matches Ok(seed) ==> seed@ == seed_of(words@) && seed@.len() == 64,
{
    match bip39::Mnemonic::parse(words) {
        Ok(m) => Ok(m.to_seed_normalized("").to_vec()),
        Err(e) => Err(e.to_string()),
    }
}

/// Generate a twelve-word mnemonic phrase.
///
/// Every phrase this returns is one that [`mnemonic_to_seed`] accepts.
/// Generation draws on the machine's entropy source; if that fails,
/// the failure is a defect of this adapter's environment, reported as
/// `InternalError`.
pub fn generate_mnemonic() -> (r: Result<String, FFIError>)
    ensures
        r matches Ok(phrase) ==> is_valid_mnemonic(phrase@),
        r matches Err(e) ==> e is InternalError
            && spec_message(e).len() >= "Failed to generate mnemonic: "@.len()
            && spec_message(e).subrange(
                0,
                "Failed to generate mnemonic: "@.len() as int,
            ) == "Failed to generate mnemonic: "@,
{
    match bip39_generate_twelve() {
        Ok(phrase) => Ok(phrase),
        Err(e) => {
            let m = String::from_str("Failed to generate mnemonic: ").concat(e.as_str());
            proof {
                assert(m@.subrange(0, "Failed to generate mnemonic: "@.len() as int)
                    =~= "Failed to generate mnemonic: "@);
            }
            Err(FFIError::internal_error(m))
        },
    }
}

/// Expand a mnemonic phrase to the 64-byte seed a wallet is keyed
/// from.
///
/// Succeeds on exactly the phrases the mnemonic parser accepts — in
/// particular on every phrase [`generate_mnemonic`] returns — and the
/// seed is determined by the phrase alone. Any other text is rejected
/// as `InvalidInput`, never substituted or defaulted.
pub fn mnemonic_to_seed(mnemonic_words: &str) -> (r: Result<Vec<u8>, FFIError>)
    ensures
        r is Ok <==> is_valid_mnemonic(mnemonic_words@),
        r matches Ok(seed) ==> seed@ == seed_of(mnemonic_words@) && seed@.len() == 64,
        r matches Err(e) ==> e is InvalidInput
            && spec_message(e).len() >= "Invalid mnemonic: "@.len()
            && spec_message(e).subrange(0, "Invalid mnemonic: "@.len() as int)
                == "Invalid mnemonic: "@,
{
    match bip39_parse_to_seed(mnemonic_words) {
        Ok(seed) => Ok(seed),
        Err(e) => {
            let m = String::from_str("Invalid mnemonic: ").concat(e.as_str());
            proof {
                assert(m@.subrange(0, "Invalid mnemonic: "@.len() as int)
                    =~= "Invalid mnemonic: "@);
            }
            Err(FFIError::invalid_input(m))
        },
    }
}

} // verus!
