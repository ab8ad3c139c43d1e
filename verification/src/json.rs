use vstd::prelude::*;

verus! {

/// The error with which `serde_json` reports a failed encoding.
#[verifier::external_type_specification]
#[verifier::external_body]
pub struct ExJsonError(serde_json::Error);

/// A JSON document held by `serde_json`.
#[verifier::external_type_specification]
#[verifier::external_body]
pub struct ExJsonValue(serde_json::Value);

/// A JSON number held by `serde_json`: an integer or a finite decimal.
#[verifier::external_type_specification]
#[verifier::external_body]
pub struct ExJsonNumber(serde_json::Number);

/// The JSON text that `serde_json` writes for a string, or `None` where it
/// reports an error.
pub uninterp spec fn json_of_str(s: Seq<char>) -> Option<Seq<char>>;

/// The JSON text that `serde_json` writes for an unsigned integer.
pub uninterp spec fn json_of_usize(n: usize) -> Option<Seq<char>>;

/// The JSON text that `serde_json` writes for a number.
pub uninterp spec fn json_of_number(n: serde_json::Number) -> Option<Seq<char>>;

/// The JSON text that `serde_json` writes for a document.
pub uninterp spec fn json_of_value(v: serde_json::Value) -> Option<Seq<char>>;

/// Trusted: `Clone` of `serde_json::Value`, which copies the document.
pub assume_specification[ <serde_json::Value as Clone>::clone ](v: &serde_json::Value) -> (res:
    serde_json::Value)
    ensures
        res == *v,
;

/// Trusted: `Clone` of `serde_json::Number`, which copies the number.
pub assume_specification[ <serde_json::Number as Clone>::clone ](n: &serde_json::Number) -> (res:
    serde_json::Number)
    ensures
        res == *n,
;

/// Whether an encoding came out as the given specification says.
pub open spec fn encoded_as(res: Result<String, serde_json::Error>, text: Option<Seq<char>>) -> bool {
    match res {
        Ok(t) => text == Some(t@),
        Err(_) => text.is_none(),
    }
}

/// Encodes a string as a JSON string literal.
///
/// Trusted: `serde_json::to_string` on a `str`. The contract claims only that
/// the outcome is a function of the characters.
#[verifier::external_body]
pub(crate) fn encode_str(s: &str) -> (res: Result<String, serde_json::Error>)
    ensures
        encoded_as(res, json_of_str(s@)),
{
    serde_json::to_string(s)
}

/// Encodes an unsigned integer as a JSON number.
///
/// Trusted: `serde_json::to_string` on a `usize`. The contract claims only
/// that the outcome is a function of the number.
#[verifier::external_body]
pub(crate) fn encode_usize(n: usize) -> (res: Result<String, serde_json::Error>)
    ensures
        encoded_as(res, json_of_usize(n)),
{
    serde_json::to_string(&n)
}

/// Encodes a number as JSON text.
///
/// Trusted: `serde_json::to_string` on a `serde_json::Number`. The contract
/// claims only that the outcome is a function of the number.
#[verifier::external_body]
pub(crate) fn encode_number(n: &serde_json::Number) -> (res: Result<String, serde_json::Error>)
    ensures
        encoded_as(res, json_of_number(*n)),
{
    serde_json::to_string(n)
}

/// Encodes a document as JSON text.
///
/// Trusted: `serde_json::to_string` on a `serde_json::Value`. The contract
/// claims only that the outcome is a function of the document.
#[verifier::external_body]
pub(crate) fn encode_value(v: &serde_json::Value) -> (res: Result<String, serde_json::Error>)
    ensures
        encoded_as(res, json_of_value(*v)),
{
    serde_json::to_string(v)
}

/// The document `null`.
///
/// Trusted: the variant `serde_json::Value::Null`, which `serde_json` writes
/// as the text `null`.
#[verifier::external_body]
pub(crate) fn null_value() -> (res: serde_json::Value)
    ensures
        json_of_value(res) == Some("null"@),
{
    serde_json::Value::Null
}

} // verus!
