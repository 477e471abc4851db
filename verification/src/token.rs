//! The outbound conversion of a transferable token.

use vstd::prelude::*;

use crate::engine;
use crate::error::{spec_message, FFIError};
use crate::quotes::option_text_eq;

verus! {

/// A foreign-safe token record: the serialized token text together
/// with the mint it draws on, the carried memo and the unit text.
#[derive(Debug)]
pub struct FFIToken {
    pub token_string: String,
    pub mint: String,
    pub memo: Option<String>,
    pub unit: String,
}

impl FFIToken {
    /// Convert an engine token into its foreign record.
    ///
    /// Constructing the record requires the source token to have
    /// resolved a mint URL; a resolution failure is reported as a
    /// `WalletError` carrying the failure's description, never a
    /// default. A token without a unit gets the empty unit text.
    pub fn from_engine(token: engine::Token) -> (r: Result<FFIToken, FFIError>)
        ensures
            r is Ok <==> token.mint_url is Ok,
            r matches Ok(t) ==> {
                &&& t.token_string@ == token.encoded@
                &&& t.mint@ == token.mint_url->Ok_0@
                &&& option_text_eq(t.memo, token.memo)
                &&& t.unit@ == spec_unit_or_empty(token.unit)
            },
            r matches Err(e) ==> e is WalletError
                && spec_message(e) == token.mint_url->Err_0@,
    {
        let mint = match token.mint_url {
            Ok(url) => url,
            Err(msg) => {
                return Err(FFIError::wallet_error(msg));
            },
        };
        let unit = match token.unit {
            Some(u) => u,
            None => String::new(),
        };
        Ok(FFIToken { token_string: token.encoded, mint, memo: token.memo, unit })
    }
}

/// The unit text of an optional unit: the text itself, or empty when
/// the token carries none.
pub open spec fn spec_unit_or_empty(unit: Option<String>) -> Seq<char> {
    match unit {
        Option::Some(u) => u@,
        Option::None => Seq::<char>::empty(),
    }
}

} // verus!
