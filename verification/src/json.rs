//! JSON values as `serde_json` holds them, as far as the core looks into
//! them: whether a response has results, and what they are.

use vstd::prelude::*;
use vstd::string::*;

verus! {

/// A JSON value of `serde_json`, carried through as an opaque value.
#[verifier::external_type_specification]
#[verifier::external_body]
pub struct ExJsonValue(serde_json::Value);

/// The error of `serde_json`, carried through as an opaque value.
#[verifier::external_type_specification]
#[verifier::external_body]
pub struct ExJsonError(serde_json::Error);

/// What `serde_json::from_str` reads `text` as: the JSON value, or nothing
/// where it refuses the text.
pub uninterp spec fn json_parsed(text: Seq<char>) -> Option<serde_json::Value>;

/// What `serde_json::Value::get` finds in `value` under the text `key`: the
/// member of that name, where `value` is an object that has one.
pub uninterp spec fn json_member_of(value: serde_json::Value, key: Seq<char>) -> Option<
    serde_json::Value,
>;

/// What `serde_json::Value::as_array` finds in `value`: its elements, in
/// order, where `value` is an array.
pub uninterp spec fn json_elements_of(value: serde_json::Value) -> Option<Seq<serde_json::Value>>;

/// The text that `to_string` writes for `value`: the value as compact JSON.
pub uninterp spec fn json_text_of(value: serde_json::Value) -> Seq<char>;

/// `serde_json::Value::as_array`. The contract claims that the outcome
/// depends on the value alone: it is the elements that `json_elements_of`
/// names, or `None` where that is nothing.
pub assume_specification[ serde_json::Value::as_array ](value: &serde_json::Value) -> (elements:
    Option<&Vec<serde_json::Value>>)
    ensures
        match elements {
            Some(found) => json_elements_of(*value) == Some(found@),
            None => json_elements_of(*value) is None,
        },
;

/// Calls `serde_json::from_str` to read `text` as a JSON value. The
/// contract claims that the outcome depends on the text alone: it is `Ok`
/// with the value that `json_parsed` names, or `Err` where that is nothing.
#[verifier::external_body]
pub(crate) fn parse_json(text: &str) -> (r: Result<serde_json::Value, serde_json::Error>)
    ensures
        match r {
            Ok(value) => json_parsed(text@) == Some(value),
            Err(_) => json_parsed(text@) is None,
        },
{
    serde_json::from_str(text)
}

/// Calls `serde_json::Value::get` with a text as the index. The contract
/// claims that the outcome depends on the value and the key alone: it is the
/// member that `json_member_of` names, or `None` where that is nothing.
#[verifier::external_body]
pub(crate) fn json_member<'a>(value: &'a serde_json::Value, key: &str) -> (member: Option<
    &'a serde_json::Value,
>)
    ensures
        match member {
            Some(found) => json_member_of(*value, key@) == Some(*found),
            None => json_member_of(*value, key@) is None,
        },
{
    value.get(key)
}

/// Calls `to_string` on a JSON value, which writes it as compact JSON. The
/// contract claims that the text depends on the value alone: it is the text
/// that `json_text_of` names.
#[verifier::external_body]
pub(crate) fn json_text(value: &serde_json::Value) -> (text: String)
    ensures
        text@ == json_text_of(*value),
{
    value.to_string()
}

} // verus!
