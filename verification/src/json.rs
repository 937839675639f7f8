//! JSON documents, parsed by `serde_json` and carried through unread.

use vstd::prelude::*;

verus! {

/// A parsed JSON document. The library never looks inside one.
#[verifier::external_type_specification]
#[verifier::external_body]
pub struct ExJsonValue(serde_json::Value);

/// The error `serde_json` reports.
#[verifier::external_type_specification]
#[verifier::external_body]
pub struct ExJsonError(serde_json::Error);

/// The document that `text` denotes, or `None` where `text` is not one JSON
/// value followed by nothing but whitespace.
pub uninterp spec fn json_document(text: Seq<char>) -> Option<serde_json::Value>;

/// `serde_json::from_str` at type `Value`. The outcome is a function of the
/// text alone: it fails exactly where `json_document` is `None`, and a value
/// it returns is the one `json_document` names.
#[verifier::external_body]
fn from_str(text: &str) -> (r: Result<serde_json::Value, serde_json::Error>)
    ensures
        match r {
            Ok(value) => json_document(text@) == Some(value),
            Err(_) => json_document(text@) is None,
        },
{
    serde_json::from_str::<serde_json::Value>(text)
}

/// The text of a `serde_json` error, as its `Display` gives it.
#[verifier::external_body]
fn error_text(error: &serde_json::Error) -> String {
    error.to_string()
}

/// `Clone::clone` of a `serde_json::Value`: a second value equal to the
/// first.
#[verifier::external_body]
pub(crate) fn clone_document(value: &serde_json::Value) -> (copy: serde_json::Value)
    ensures
        copy == *value,
{
    value.clone()
}

/// Parses `text` as one JSON document. Fails, with the parser's own words,
/// exactly where the text is not valid JSON.
pub fn parse_document(text: &str) -> (r: Result<serde_json::Value, String>)
    ensures
        match r {
            Ok(value) => json_document(text@) == Some(value),
            Err(_) => json_document(text@) is None,
        },
{
    match from_str(text) {
        Ok(value) => Ok(value),
        Err(error) => Err(error_text(&error)),
    }
}

} // verus!
