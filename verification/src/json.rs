//! Trusted declarations for the JSON parsing the health check performs on
//! the child's reply body.  Parsing is done by serde_json; the supervisor's
//! own logic only looks at whether the body parsed and at the optional
//! `status` string field of the parsed document.

use vstd::prelude::*;

verus! {

#[verifier::external_type_specification]
#[verifier::external_body]
pub struct ExJsonValue(serde_json::Value);

#[verifier::external_type_specification]
#[verifier::external_body]
pub struct ExJsonError(serde_json::Error);

/// Whether serde_json accepts `s` as a JSON document.  Acceptance depends on
/// the text alone.
pub uninterp spec fn json_accepts(s: Seq<char>) -> bool;

/// Relies on `serde_json::from_str`: parses a string as a JSON document;
/// whether it succeeds is a function of the string alone.
#[verifier::external_body]
pub(crate) fn json_parse(s: &str) -> (r: Result<serde_json::Value, serde_json::Error>)
    ensures
        r is Ok <==> json_accepts(s@),
{
    serde_json::from_str::<serde_json::Value>(s)
}

/// Relies on the `Display` implementation of `serde_json::Error` for the
/// human-readable description of a parse failure.
#[verifier::external_body]
pub(crate) fn json_error_string(e: &serde_json::Error) -> String {
    format!("{}", e)
}

/// Relies on `serde_json::Value::get`: looks up a member of a JSON object by
/// key, returning `None` on non-objects and absent keys.
#[verifier::external_body]
pub(crate) fn json_get<'a>(v: &'a serde_json::Value, key: &str) -> Option<&'a serde_json::Value> {
    v.get(key)
}

/// Relies on `serde_json::Value::as_str`: the text of a JSON string value,
/// `None` for every other kind of value.
#[verifier::external_body]
pub(crate) fn json_as_str(v: &serde_json::Value) -> Option<String> {
    match v.as_str() {
        Some(s) => Some(s.to_owned()),
        None => None,
    }
}

} // verus!
