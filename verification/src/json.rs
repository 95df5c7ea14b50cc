//! The trusted boundary to serde_json: the declarations and wrappers through
//! which inbound frames are parsed and inspected. Everything past this module
//! works on plain values and is verified.

use vstd::prelude::*;

verus! {

#[verifier::external_type_specification]
#[verifier::external_body]
pub struct ExValue(serde_json::Value);

#[verifier::external_type_specification]
#[verifier::external_body]
#[verifier::reject_recursive_types(K)]
#[verifier::reject_recursive_types(V)]
pub struct ExMap<K, V>(serde_json::Map<K, V>);

#[verifier::external_type_specification]
#[verifier::external_body]
pub struct ExError(serde_json::Error);

/// Whether a text is a well-formed JSON document: the outcome of parsing it,
/// which depends on the text alone.
pub uninterp spec fn json_text_well_formed(s: Seq<char>) -> bool;

/// Relies on `serde_json::from_str`: parses the text as a JSON document,
/// returning the parsed value exactly when the text is well formed.
#[verifier::external_body]
pub(crate) fn json_from_str(s: &str) -> (r: Result<serde_json::Value, serde_json::Error>)
    ensures
        r is Ok <==> json_text_well_formed(s@),
{
    serde_json::from_str(s)
}

/// Relies on `serde_json::Value::as_object`: returns the associated map when
/// the value is an object, and nothing otherwise.
#[verifier::external_body]
pub(crate) fn value_as_object<'a>(
    v: &'a serde_json::Value,
) -> Option<&'a serde_json::Map<String, serde_json::Value>> {
    v.as_object()
}

/// Relies on `serde_json::Map::get`: looks the key up in the map.
#[verifier::external_body]
pub(crate) fn map_get<'a>(
    m: &'a serde_json::Map<String, serde_json::Value>,
    key: &str,
) -> Option<&'a serde_json::Value> {
    m.get(key)
}

/// Relies on `serde_json::Value::as_str`: returns the associated text when
/// the value is a JSON string, and nothing otherwise.
#[verifier::external_body]
pub(crate) fn value_as_str<'a>(v: &'a serde_json::Value) -> Option<&'a str> {
    v.as_str()
}

/// Relies on the `Debug` rendering of `serde_json::Value` for a printable
/// account of an inbound value of unexpected shape.
#[verifier::external_body]
pub(crate) fn value_debug_string(v: &serde_json::Value) -> String {
    format!("{:?}", v)
}

/// Relies on the `Display` rendering of `serde_json::Error` for the parser's
/// diagnostic text.
#[verifier::external_body]
pub(crate) fn json_error_string(e: &serde_json::Error) -> String {
    format!("{}", e)
}

} // verus!
