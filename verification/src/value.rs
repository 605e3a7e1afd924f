//! JSON values that are carried through as they are.

use vstd::prelude::*;

verus! {

/// Declares `serde_json::Value`, a parsed JSON value.
#[verifier::external_type_specification]
#[verifier::external_body]
pub struct ExValue(serde_json::Value);

/// Declares `serde_json::Error`, which says why a text is no JSON.
#[verifier::external_type_specification]
#[verifier::external_body]
pub struct ExJsonError(serde_json::Error);

/// The contents of a value, as the compact JSON text that stands for it.
pub uninterp spec fn json_text(value: serde_json::Value) -> Seq<char>;

/// What `serde_json::from_str` reads in a text, as compact JSON; `None` where it fails.
pub uninterp spec fn parsed_json(text: Seq<char>) -> Option<Seq<char>>;

/// Calls `serde_json::from_str::<serde_json::Value>`. Whether it succeeds, and the value that it
/// gives, depend on the text alone.
#[verifier::external_body]
pub(crate) fn parse_json(text: &str) -> (value: Result<serde_json::Value, serde_json::Error>)
    ensures
        match value {
            Ok(value) => parsed_json(text@) == Some(json_text(value)),
            Err(_) => parsed_json(text@) is None,
        },
{
    serde_json::from_str::<serde_json::Value>(text)
}

} // verus!
