//! YAML documents, read by `serde_yaml`.
//!
//! Nothing in this module is proved: it states what the parser's functions
//! return, and the rest of the crate is verified against that.

use vstd::prelude::*;

verus! {

/// A parsed YAML value. Its inside is hidden from the verifier.
#[verifier::external_type_specification]
#[verifier::external_body]
pub struct ExYamlValue(serde_yaml::Value);

/// Why a text is no YAML document.
#[verifier::external_type_specification]
#[verifier::external_body]
pub struct ExYamlError(serde_yaml::Error);

/// The value that `serde_yaml::from_str` reads out of `text`, where it
/// accepts it.
pub uninterp spec fn yaml_document(text: Seq<char>) -> Option<serde_yaml::Value>;

/// What `serde_yaml::Value::get` finds in `value` under the string `key`.
pub uninterp spec fn yaml_entry(value: serde_yaml::Value, key: Seq<char>) -> Option<
    serde_yaml::Value,
>;

/// What `serde_yaml::Value::as_str` returns for `value`.
pub uninterp spec fn yaml_string(value: serde_yaml::Value) -> Option<Seq<char>>;

/// `serde_yaml::from_str`, reading a `serde_yaml::Value`. The result is a
/// function of the text alone: it is `yaml_document` of it.
#[verifier::external_body]
pub(crate) fn parse_yaml(text: &str) -> (r: Result<serde_yaml::Value, serde_yaml::Error>)
    ensures
        r is Ok <==> yaml_document(text@) is Some,
        r matches Ok(value) ==> yaml_document(text@) == Some(value),
{
    serde_yaml::from_str::<serde_yaml::Value>(text)
}

/// `serde_yaml::Value::get` with a string key: the entry of a mapping under
/// that key, and nothing where the value is no mapping or has no such key.
/// The result is `yaml_entry` of the value and the key.
#[verifier::external_body]
pub(crate) fn yaml_get<'a>(value: &'a serde_yaml::Value, key: &str) -> (r: Option<
    &'a serde_yaml::Value,
>)
    ensures
        r is Some <==> yaml_entry(*value, key@) is Some,
        r matches Some(entry) ==> yaml_entry(*value, key@) == Some(*entry),
{
    value.get(key)
}

/// `serde_yaml::Value::as_str`: the text of a string value, and nothing for
/// any other value. The result is `yaml_string` of the value.
#[verifier::external_body]
pub(crate) fn yaml_as_str<'a>(value: &'a serde_yaml::Value) -> (r: Option<&'a str>)
    ensures
        r is Some <==> yaml_string(*value) is Some,
        r matches Some(text) ==> yaml_string(*value) == Some(text@),
{
    value.as_str()
}

} // verus!
