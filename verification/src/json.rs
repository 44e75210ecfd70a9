//! JSON texts.

use vstd::prelude::*;

verus! {

/// What `serde_json::from_str` makes of a text as a `serde_json::Value`: nothing more than that
/// it is one, or the text of the error.
pub uninterp spec fn json_value_check(json: Seq<char>) -> Result<(), Seq<char>>;

/// A check's outcome, with the text of its error.
pub open spec fn check_view(check: Result<(), String>) -> Result<(), Seq<char>> {
    match check {
        Ok(_) => Ok(()),
        Err(error) => Err(error@),
    }
}

/// `serde_json::from_str` for a `serde_json::Value`, with the error as its `Display` writes it.
/// Whether a text is a JSON value, and what the error says where it is not, depends on the text
/// alone; which texts are JSON values is left to `serde_json`.
#[verifier::external_body]
pub(crate) fn check_json_value(json: &str) -> (check: Result<(), String>)
    ensures
        check_view(check) == json_value_check(json@),
{
    match serde_json::from_str::<serde_json::Value>(json) {
        Ok(_) => Ok(()),
        Err(error) => Err(error.to_string()),
    }
}

} // verus!
