//! Validation mode: a single immutable flag resolved once, at bootstrap
//! start, from the environment-provided setting, and threaded explicitly
//! into every component that branches on it.

use vstd::prelude::*;

verus! {

/// Whether a raw environment value turns validation on: only the exact
/// strings `"1"` and `"true"` do; anything else, absence included, leaves
/// it off.
pub open spec fn spec_validation_enabled(raw: Option<Seq<char>>) -> bool {
    match raw {
        Some(s) => s == "1"@ || s == "true"@,
        None => false,
    }
}

/// Resolves the validation mode from the environment-provided setting. The
/// host reads the variable; this decides what it means.
pub fn resolve_validation(raw: Option<String>) -> (r: bool)
    ensures
        r == spec_validation_enabled(raw.deep_view()),
{
    match raw {
        Some(s) => s == "1".to_owned() || s == "true".to_owned(),
        None => false,
    }
}

} // verus!
