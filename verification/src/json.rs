//! The JSON reader this library relies on. Nothing here is proved: each item
//! states what `serde_json` does, and the rest of the library is verified
//! against these statements.

use vstd::prelude::*;

verus! {

/// A parsed JSON document, `serde_json::Value`. Its inside is not visible to
/// the verifier; it is read through the functions below.
#[verifier::external_type_specification]
#[verifier::external_body]
pub struct ExJsonValue(serde_json::Value);

/// Why a text is not a JSON document, `serde_json::Error`.
#[verifier::external_type_specification]
#[verifier::external_body]
pub struct ExJsonError(serde_json::Error);

/// The document that `serde_json::from_str` reads from `text`, or `None`
/// where it rejects the text.
pub uninterp spec fn json_document(text: Seq<char>) -> Option<serde_json::Value>;

/// What indexing `value` by the string `key` gives: the member of that name
/// where `value` is an object that has one, and JSON null otherwise.
pub uninterp spec fn json_member(value: serde_json::Value, key: Seq<char>) -> serde_json::Value;

/// The boolean that `value` is, or `None` where it is not a boolean.
pub uninterp spec fn json_bool(value: serde_json::Value) -> Option<bool>;

/// The number that `value` is, where it is an integer from 0 to `u64::MAX`,
/// and `None` otherwise.
pub uninterp spec fn json_u64(value: serde_json::Value) -> Option<u64>;

/// Calls `serde_json::from_str` for a `serde_json::Value`. The outcome
/// depends on the text alone: the call accepts exactly the texts that have a
/// document, and then returns that document.
#[verifier::external_body]
pub(crate) fn parse_document(text: &str) -> (r: Result<serde_json::Value, serde_json::Error>)
    ensures
        match r {
            Ok(value) => json_document(text@) == Some(value),
            Err(_) => json_document(text@) is None,
        },
{
    serde_json::from_str::<serde_json::Value>(text)
}

/// Indexes a `serde_json::Value` by a string key (`value[key]`), which never
/// fails on a shared reference: the result is the named member, or JSON null.
#[verifier::external_body]
pub(crate) fn member<'a>(value: &'a serde_json::Value, key: &str) -> (r: &'a serde_json::Value)
    ensures
        *r == json_member(*value, key@),
{
    &value[key]
}

/// `serde_json::Value::as_bool`: the boolean that the value is, if it is one.
pub assume_specification[ serde_json::Value::as_bool ](value: &serde_json::Value) -> (r: Option<bool>)
    ensures
        r == json_bool(*value),
;

/// `serde_json::Value::as_u64`: the value as a `u64`, if it is an integer in
/// that range.
pub assume_specification[ serde_json::Value::as_u64 ](value: &serde_json::Value) -> (r: Option<u64>)
    ensures
        r == json_u64(*value),
;

} // verus!
