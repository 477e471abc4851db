//! The best-effort mint-info lookup's decision logic.
//!
//! The lookup never fails outward: the unverified shell performs the
//! engine calls (a cache lookup, and on a miss one keyset fetch plus a
//! second lookup) and records what it observed as a [`MintInfoProbe`];
//! this module decides, and renders, the status a caller is told.
//! Degraded outcomes — fetch failed, keysets loaded but info still
//! missing — are reported as descriptive statuses, not errors, by
//! design.

use vstd::prelude::*;
use vstd::string::*;

verus! {

/// What the shell read out of the engine's mint info.
#[derive(Clone, Debug)]
pub struct MintInfoSummary {
    /// The mint's self-reported name, when it gave one.
    pub name: Option<String>,
}

/// The outcome of the keyset fetch made after a cache miss.
#[derive(Clone, Debug)]
pub enum KeysetFetch {
    /// The keysets came back, and the cache was consulted once more.
    Fetched { keyset_count: u64, info: Option<MintInfoSummary> },
    /// The fetch itself failed, with this description.
    Failed { reason: String },
}

/// Everything the lookup observed: either the cache already held the
/// info, or it did not and one keyset fetch was made.
#[derive(Clone, Debug)]
pub enum MintInfoProbe {
    CacheHit { info: MintInfoSummary },
    CacheMiss { fetched: KeysetFetch },
}

/// The status a caller of the mint-info lookup is told.
#[derive(Clone, Debug)]
pub enum MintInfoStatus {
    /// The cache already held the mint info.
    AlreadyCached { name: Option<String> },
    /// A keyset fetch brought the mint info in.
    FetchedAndCached { name: Option<String>, keyset_count: u64 },
    /// Keysets loaded, but the mint info is still missing.
    PartiallyAvailable { keyset_count: u64 },
    /// The keyset fetch failed; the lookup still succeeds outward.
    FetchFailed { reason: String },
}

/// The status each observation decides.
pub open spec fn spec_classify_mint_info(probe: MintInfoProbe) -> MintInfoStatus {
    match probe {
        MintInfoProbe::CacheHit { info } => MintInfoStatus::AlreadyCached { name: info.name },
        MintInfoProbe::CacheMiss { fetched } => match fetched {
            KeysetFetch::Fetched { keyset_count, info } => match info {
                Option::Some(i) => MintInfoStatus::FetchedAndCached {
                    name: i.name,
                    keyset_count,
                },
                Option::None => MintInfoStatus::PartiallyAvailable { keyset_count },
            },
            KeysetFetch::Failed { reason } => MintInfoStatus::FetchFailed { reason },
        },
    }
}

/// Decide the outcome of the best-effort mint-info lookup: a cache hit
/// reports the cached info; a fetched cache miss reports whether the
/// info arrived with the keysets; a failed fetch reports the failure
/// as a status, never as an error.
pub fn classify_mint_info(probe: MintInfoProbe) -> (r: MintInfoStatus)
    ensures
        r == spec_classify_mint_info(probe),
{
    match probe {
        MintInfoProbe::CacheHit { info } => MintInfoStatus::AlreadyCached { name: info.name },
        MintInfoProbe::CacheMiss { fetched } => match fetched {
            KeysetFetch::Fetched { keyset_count, info } => match info {
                Some(i) => MintInfoStatus::FetchedAndCached { name: i.name, keyset_count },
                None => MintInfoStatus::PartiallyAvailable { keyset_count },
            },
            KeysetFetch::Failed { reason } => MintInfoStatus::FetchFailed { reason },
        },
    }
}

/// A mint name, or the fixed placeholder for a mint that gave none.
pub open spec fn spec_name_or_unknown(name: Option<String>) -> Seq<char> {
    match name {
        Option::Some(n) => n@,
        Option::None => "Unknown Mint"@,
    }
}

/// The exact text each status renders to.
pub open spec fn spec_mint_info_text(status: MintInfoStatus) -> Seq<char> {
    match status {
        MintInfoStatus::AlreadyCached { name } => "Mint info already initialized: "@
            + spec_name_or_unknown(name),
        MintInfoStatus::FetchedAndCached { name, keyset_count } =>
            "Mint info fetched and initialized: "@ + spec_name_or_unknown(name) + " (keysets: "@
            + spec_decimal(keyset_count as nat) + ")"@,
        MintInfoStatus::PartiallyAvailable { keyset_count } => "Mint keysets loaded ("@
            + spec_decimal(keyset_count as nat)
            + " keysets) but mint info still not available"@,
        MintInfoStatus::FetchFailed { reason } => "Failed to get mint keysets: "@ + reason@,
    }
}

/// Render the name, defaulting a missing one to the placeholder.
fn name_or_unknown(name: Option<String>) -> (r: String)
    ensures
        r@ == spec_name_or_unknown(name),
{
    match name {
        Some(n) => n,
        None => String::from_str("Unknown Mint"),
    }
}

/// Render a status to the exact text a caller is handed.
pub fn render_mint_info(status: MintInfoStatus) -> (r: String)
    ensures
        r@ == spec_mint_info_text(status),
{
    match status {
        MintInfoStatus::AlreadyCached { name } => String::from_str(
            "Mint info already initialized: ",
        ).concat(name_or_unknown(name).as_str()),
        MintInfoStatus::FetchedAndCached { name, keyset_count } => String::from_str(
            "Mint info fetched and initialized: ",
        ).concat(name_or_unknown(name).as_str()).concat(" (keysets: ").concat(
            decimal_string(keyset_count).as_str(),
        ).concat(")"),
        MintInfoStatus::PartiallyAvailable { keyset_count } => String::from_str(
            "Mint keysets loaded (",
        ).concat(decimal_string(keyset_count).as_str()).concat(
            " keysets) but mint info still not available",
        ),
        MintInfoStatus::FetchFailed { reason } => String::from_str(
            "Failed to get mint keysets: ",
        ).concat(reason.as_str()),
    }
}

/// The decimal digit characters.
pub open spec fn spec_digit_char(d: nat) -> char {
    if d == 0 {
        '0'
    } else if d == 1 {
        '1'
    } else if d == 2 {
        '2'
    } else if d == 3 {
        '3'
    } else if d == 4 {
        '4'
    } else if d == 5 {
        '5'
    } else if d == 6 {
        '6'
    } else if d == 7 {
        '7'
    } else if d == 8 {
        '8'
    } else {
        '9'
    }
}

/// The usual decimal rendering of a number: no sign, no leading zero
/// except on zero itself.
pub open spec fn spec_decimal(n: nat) -> Seq<char>
    decreases n,
{
    if n < 10 {
        seq![spec_digit_char(n)]
    } else {
        spec_decimal(n / 10) + seq![spec_digit_char(n % 10)]
    }
}

/// One decimal digit as text.
fn digit_str(d: u64) -> (r: &'static str)
    requires
        d < 10,
    ensures
        r@ == seq![spec_digit_char(d as nat)],
{
    proof {
        reveal_strlit("0");
        reveal_strlit("1");
        reveal_strlit("2");
        reveal_strlit("3");
        reveal_strlit("4");
        reveal_strlit("5");
        reveal_strlit("6");
        reveal_strlit("7");
        reveal_strlit("8");
        reveal_strlit("9");
    }
    let r = if d == 0 {
        "0"
    } else if d == 1 {
        "1"
    } else if d == 2 {
        "2"
    } else if d == 3 {
        "3"
    } else if d == 4 {
        "4"
    } else if d == 5 {
        "5"
    } else if d == 6 {
        "6"
    } else if d == 7 {
        "7"
    } else if d == 8 {
        "8"
    } else {
        "9"
    };
    proof {
        assert(r@ =~= seq![spec_digit_char(d as nat)]);
    }
    r
}

/// Render a number in decimal.
pub fn decimal_string(n: u64) -> (r: String)
    ensures
        r@ == spec_decimal(n as nat),
    decreases n,
{
    if n < 10 {
        let s = digit_str(n).to_owned();
        s
    } else {
        let prefix = decimal_string(n / 10);
        let r = prefix.concat(digit_str(n % 10));
        proof {
            assert(r@ =~= spec_decimal(n as nat));
        }
        r
    }
}

} // verus!
