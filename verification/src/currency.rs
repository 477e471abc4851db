//! Currency units: case-insensitive parsing of unit text, and the
//! inbound conversion to the engine's unit.

use vstd::prelude::*;
use vstd::string::*;

use crate::engine;
use crate::error::{spec_message, FFIError};

verus! {

/// A foreign-safe currency unit.
#[derive(Clone, Copy, Debug, PartialEq, Eq, Structural)]
pub enum FFICurrencyUnit {
    Sat,
    Msat,
    Usd,
    Eur,
}

/// `s` spells `sat`, each letter in either case.
pub open spec fn is_sat_text(s: Seq<char>) -> bool {
    s.len() == 3
        && (s[0] == 's' || s[0] == 'S')
        && (s[1] == 'a' || s[1] == 'A')
        && (s[2] == 't' || s[2] == 'T')
}

/// `s` spells `msat`, each letter in either case.
pub open spec fn is_msat_text(s: Seq<char>) -> bool {
    s.len() == 4
        && (s[0] == 'm' || s[0] == 'M')
        && (s[1] == 's' || s[1] == 'S')
        && (s[2] == 'a' || s[2] == 'A')
        && (s[3] == 't' || s[3] == 'T')
}

/// `s` spells `usd`, each letter in either case.
pub open spec fn is_usd_text(s: Seq<char>) -> bool {
    s.len() == 3
        && (s[0] == 'u' || s[0] == 'U')
        && (s[1] == 's' || s[1] == 'S')
        && (s[2] == 'd' || s[2] == 'D')
}

/// `s` spells `eur`, each letter in either case.
pub open spec fn is_eur_text(s: Seq<char>) -> bool {
    s.len() == 3
        && (s[0] == 'e' || s[0] == 'E')
        && (s[1] == 'u' || s[1] == 'U')
        && (s[2] == 'r' || s[2] == 'R')
}

/// `s` names one of the recognized units, case-insensitively.
pub open spec fn is_unit_text(s: Seq<char>) -> bool {
    is_sat_text(s) || is_msat_text(s) || is_usd_text(s) || is_eur_text(s)
}

/// The unit a recognized text names.
pub open spec fn spec_parse_unit(s: Seq<char>) -> FFICurrencyUnit
    recommends
        is_unit_text(s),
{
    if is_sat_text(s) {
        FFICurrencyUnit::Sat
    } else if is_msat_text(s) {
        FFICurrencyUnit::Msat
    } else if is_usd_text(s) {
        FFICurrencyUnit::Usd
    } else {
        FFICurrencyUnit::Eur
    }
}

impl FFICurrencyUnit {
    /// Parse a currency unit from text, case-insensitively.
    ///
    /// Exactly the texts `sat`, `msat`, `usd` and `eur`, in any mix of
    /// upper and lower case, are accepted; any other text is an
    /// `InvalidInput` error naming the rejected text, never a default.
    pub fn parse(unit: &str) -> (r: Result<FFICurrencyUnit, FFIError>)
        ensures
            r is Ok <==> is_unit_text(unit@),
            r matches Ok(u) ==> u == spec_parse_unit(unit@),
            r matches Err(e) ==> e is InvalidInput
                && spec_message(e) == "Unknown currency unit: "@ + unit@,
    {
        let n = unit.unicode_len();
        if n == 3 {
            let c0 = unit.get_char(0);
            let c1 = unit.get_char(1);
            let c2 = unit.get_char(2);
            if (c0 == 's' || c0 == 'S') && (c1 == 'a' || c1 == 'A') && (c2 == 't' || c2 == 'T') {
                return Ok(FFICurrencyUnit::Sat);
            }
            if (c0 == 'u' || c0 == 'U') && (c1 == 's' || c1 == 'S') && (c2 == 'd' || c2 == 'D') {
                return Ok(FFICurrencyUnit::Usd);
            }
            if (c0 == 'e' || c0 == 'E') && (c1 == 'u' || c1 == 'U') && (c2 == 'r' || c2 == 'R') {
                return Ok(FFICurrencyUnit::Eur);
            }
        } else if n == 4 {
            let c0 = unit.get_char(0);
            let c1 = unit.get_char(1);
            let c2 = unit.get_char(2);
            let c3 = unit.get_char(3);
            if (c0 == 'm' || c0 == 'M') && (c1 == 's' || c1 == 'S') && (c2 == 'a' || c2 == 'A')
                && (c3 == 't' || c3 == 'T') {
                return Ok(FFICurrencyUnit::Msat);
            }
        }
        Err(FFIError::invalid_input(
            String::from_str("Unknown currency unit: ").concat(unit),
        ))
    }

    /// The engine-domain unit this foreign unit stands for.
    pub fn to_engine(&self) -> (r: engine::CurrencyUnit)
        ensures
            r == spec_unit_to_engine(*self),
    {
        match self {
            FFICurrencyUnit::Sat => engine::CurrencyUnit::Sat,
            FFICurrencyUnit::Msat => engine::CurrencyUnit::Msat,
            FFICurrencyUnit::Usd => engine::CurrencyUnit::Usd,
            FFICurrencyUnit::Eur => engine::CurrencyUnit::Eur,
        }
    }
}

/// The engine-domain unit each foreign unit maps to (total: the
/// foreign enumeration is no wider than the engine's).
pub open spec fn spec_unit_to_engine(u: FFICurrencyUnit) -> engine::CurrencyUnit {
    match u {
        FFICurrencyUnit::Sat => engine::CurrencyUnit::Sat,
        FFICurrencyUnit::Msat => engine::CurrencyUnit::Msat,
        FFICurrencyUnit::Usd => engine::CurrencyUnit::Usd,
        FFICurrencyUnit::Eur => engine::CurrencyUnit::Eur,
    }
}

/// The canonical (lowercase) text rendering of an engine unit, as the
/// engine's own display produces it.
pub open spec fn spec_unit_text(u: engine::CurrencyUnit) -> Seq<char> {
    match u {
        engine::CurrencyUnit::Sat => "sat"@,
        engine::CurrencyUnit::Msat => "msat"@,
        engine::CurrencyUnit::Usd => "usd"@,
        engine::CurrencyUnit::Eur => "eur"@,
    }
}

/// Render an engine unit to its canonical text.
pub fn unit_text(u: engine::CurrencyUnit) -> (r: String)
    ensures
        r@ == spec_unit_text(u),
{
    match u {
        engine::CurrencyUnit::Sat => String::from_str("sat"),
        engine::CurrencyUnit::Msat => String::from_str("msat"),
        engine::CurrencyUnit::Usd => String::from_str("usd"),
        engine::CurrencyUnit::Eur => String::from_str("eur"),
    }
}

/// Currency units survive a round trip through their canonical text:
/// rendering any engine unit that this boundary can produce and
/// parsing the text back yields that same unit.
pub proof fn lemma_unit_text_round_trip(f: FFICurrencyUnit)
    ensures
        is_unit_text(spec_unit_text(spec_unit_to_engine(f))),
        spec_parse_unit(spec_unit_text(spec_unit_to_engine(f))) == f,
{
    reveal_strlit("sat");
    reveal_strlit("msat");
    reveal_strlit("usd");
    reveal_strlit("eur");
}

} // verus!
