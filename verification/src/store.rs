//! The store handle's one decision.
//!
//! Opening the backing store is the shell's job (a single asynchronous
//! constructor call on a short-lived execution context); the only
//! decision on the way there is which path to open. A caller may give
//! an explicit path; otherwise the shell draws a fresh temporary
//! location and passes it here as the fallback.

use vstd::prelude::*;

verus! {

/// Choose the database path the store opens: the caller's explicit
/// path when one was given, the fresh fallback location otherwise.
pub fn resolve_db_path(db_path: Option<String>, fallback: String) -> (r: String)
    ensures
        match db_path {
            Option::Some(p) => r@ == p@,
            Option::None => r@ == fallback@,
        },
{
    match db_path {
        Some(custom_path) => custom_path,
        None => fallback,
    }
}

} // verus!
