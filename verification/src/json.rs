//! JSON documents, read by `serde_json`.
//!
//! Nothing in this module is proved: it states what the parser's functions
//! return, and the rest of the crate is verified against that.

use vstd::prelude::*;

verus! {

/// A parsed JSON value. Its inside is hidden from the verifier.
#[verifier::external_type_specification]
#[verifier::external_body]
pub struct ExJsonValue(serde_json::Value);

/// Why some bytes are no JSON document.
#[verifier::external_type_specification]
#[verifier::external_body]
pub struct ExJsonError(serde_json::Error);

/// The value that `serde_json::from_slice` reads out of `bytes`, where it
/// accepts them.
pub uninterp spec fn json_document(bytes: Seq<u8>) -> Option<serde_json::Value>;

/// What `serde_json::Value::get` finds in `value` under the string `key`.
pub uninterp spec fn json_member(value: serde_json::Value, key: Seq<char>) -> Option<
    serde_json::Value,
>;

/// What `serde_json::Value::as_array` returns for `value`.
pub uninterp spec fn json_elements(value: serde_json::Value) -> Option<Seq<serde_json::Value>>;

/// What `serde_json::Value::as_str` returns for `value`.
pub uninterp spec fn json_string(value: serde_json::Value) -> Option<Seq<char>>;

/// `serde_json::from_slice`, reading a `serde_json::Value`. The result is a
/// function of the bytes alone: it is `json_document` of them.
#[verifier::external_body]
pub(crate) fn parse_json(bytes: &[u8]) -> (r: Result<serde_json::Value, serde_json::Error>)
    ensures
        r is Ok <==> json_document(bytes@) is Some,
        r matches Ok(value) ==> json_document(bytes@) == Some(value),
{
    serde_json::from_slice::<serde_json::Value>(bytes)
}

/// `serde_json::Value::get` with a string key: the member of an object
/// under that key, and nothing where the value is no object or has no such
/// member. The result is `json_member` of the value and the key.
#[verifier::external_body]
pub(crate) fn json_get<'a>(value: &'a serde_json::Value, key: &str) -> (r: Option<
    &'a serde_json::Value,
>)
    ensures
        r is Some <==> json_member(*value, key@) is Some,
        r matches Some(member) ==> json_member(*value, key@) == Some(*member),
{
    value.get(key)
}

/// `serde_json::Value::as_array`: the elements of an array, and nothing for
/// any other value. The result is `json_elements` of the value.
#[verifier::external_body]
pub(crate) fn json_as_array<'a>(value: &'a serde_json::Value) -> (r: Option<
    &'a Vec<serde_json::Value>,
>)
    ensures
        r is Some <==> json_elements(*value) is Some,
        r matches Some(elements) ==> json_elements(*value) == Some(elements@),
{
    value.as_array()
}

/// `serde_json::Value::as_str`: the text of a string value, and nothing for
/// any other value. The result is `json_string` of the value.
#[verifier::external_body]
pub(crate) fn json_as_str<'a>(value: &'a serde_json::Value) -> (r: Option<&'a str>)
    ensures
        r is Some <==> json_string(*value) is Some,
        r matches Some(text) ==> json_string(*value) == Some(text@),
{
    value.as_str()
}

} // verus!
