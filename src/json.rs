use vstd::prelude::*;

verus! {

#[verifier::external_type_specification]
#[verifier::external_body]
pub struct ExJsonValue(serde_json::Value);

#[verifier::external_type_specification]
#[verifier::external_body]
pub struct ExJsonError(serde_json::Error);

/// Relies on the derived `Clone` of `serde_json::Value`: a copy of the same
/// JSON value.
pub assume_specification[ <serde_json::Value as Clone>::clone ](v: &serde_json::Value) -> (r:
    serde_json::Value)
    ensures
        r == *v,
;

/// The document that `serde_json::from_str::<Value>` reads from a text, or
/// `None` where the text is not a single well-formed JSON document.
pub uninterp spec fn parsed_json(text: Seq<char>) -> Option<serde_json::Value>;

/// The member that `Value::get` finds under a key: `None` where the value is
/// not an object or has no such key.
pub uninterp spec fn json_member(value: serde_json::Value, key: Seq<char>) -> Option<
    serde_json::Value,
>;

/// The text that `Value::as_str` reads from a value: `None` where it is not a
/// JSON string.
pub uninterp spec fn json_string(value: serde_json::Value) -> Option<Seq<char>>;

/// Relies on `serde_json::from_str::<Value>`: parses one JSON document; the
/// outcome depends on the text alone.
#[verifier::external_body]
pub(crate) fn parse_document(text: &str) -> (r: Result<serde_json::Value, serde_json::Error>)
    ensures
        r is Ok <==> parsed_json(text@) is Some,
        r is Ok ==> parsed_json(text@) == Some(r->Ok_0),
{
    serde_json::from_str::<serde_json::Value>(text)
}

/// Relies on `Value::get` with a string key: the member stored under `key`
/// when `value` is an object, cloned out of it.
#[verifier::external_body]
pub(crate) fn member(value: &serde_json::Value, key: &str) -> (r: Option<serde_json::Value>)
    ensures
        r == json_member(*value, key@),
{
    value.get(key).cloned()
}

/// Relies on `Value::as_str`: the text of a JSON string value.
#[verifier::external_body]
pub(crate) fn string_of(value: &serde_json::Value) -> (r: Option<String>)
    ensures
        r is Some <==> json_string(*value) is Some,
        r is Some ==> json_string(*value) == Some(r->Some_0@),
{
    value.as_str().map(|s| s.to_string())
}

/// Relies on `serde::de::Error::custom` for `serde_json::Error`: a diagnostic
/// for a document that is well-formed JSON but not an event object.
#[verifier::external_body]
pub(crate) fn schema_error(message: &str) -> (r: serde_json::Error) {
    <serde_json::Error as serde::de::Error>::custom(message)
}

} // verus!
