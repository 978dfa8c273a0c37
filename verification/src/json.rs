//! Trusted boundary to the JSON library: parsed documents are opaque values,
//! read through the few accessors the codec needs.

use vstd::prelude::*;

verus! {

#[verifier::external_type_specification]
#[verifier::external_body]
pub struct ExValue(serde_json::Value);

/// Relies on serde_json::from_str::<Value>: parses JSON text into a document
/// tree; `Some` exactly when the text is valid JSON.
#[verifier::external_body]
pub(crate) fn parse_json(text: &str) -> Option<serde_json::Value> {
    serde_json::from_str(text).ok()
}

/// Relies on serde_json::Value::get with a string index: looks a field up in
/// an object; `None` for missing fields and for non-objects.
#[verifier::external_body]
pub(crate) fn json_field<'a>(v: &'a serde_json::Value, key: &str) -> Option<&'a serde_json::Value> {
    v.get(key)
}

/// Relies on serde_json::Value::as_u64: `Some` exactly for integer numbers
/// that fit in `u64`.
#[verifier::external_body]
pub(crate) fn json_as_u64(v: &serde_json::Value) -> Option<u64> {
    v.as_u64()
}

/// Relies on serde_json::Value::as_str: `Some` exactly for strings.
#[verifier::external_body]
pub(crate) fn json_as_str<'a>(v: &'a serde_json::Value) -> Option<&'a str> {
    v.as_str()
}

/// Relies on serde_json::Value::is_null: true exactly for JSON null.
#[verifier::external_body]
pub(crate) fn json_is_null(v: &serde_json::Value) -> bool {
    v.is_null()
}

} // verus!
