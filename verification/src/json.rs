//! The trusted boundary around serde_json: the payload text is parsed by the
//! outside crate, and the decoder reads the parsed document only through the
//! observations declared here.
//!
//! Each observation is deterministic — a function of the document text alone —
//! so each gets an uninterpreted name, and every wrapper's contract ties its
//! result to that name.

use vstd::prelude::*;

verus! {

#[verifier::external_type_specification]
#[verifier::external_body]
pub struct ExJsonValue(serde_json::Value);

/// The JSON document a text parses to, if the text is well-formed JSON.
pub uninterp spec fn json_doc_of(s: Seq<char>) -> Option<serde_json::Value>;

/// The member a JSON value holds under a key: present exactly when the value
/// is an object with that key.
pub uninterp spec fn json_member_of(v: serde_json::Value, key: Seq<char>) -> Option<
    serde_json::Value,
>;

/// The integer a JSON value represents: present exactly when the value is a
/// number that is an integer in `i64` range.
pub uninterp spec fn json_i64_of(v: serde_json::Value) -> Option<i64>;

/// The text a JSON value holds: present exactly when the value is a string.
pub uninterp spec fn json_str_of(v: serde_json::Value) -> Option<Seq<char>>;

/// Whether a JSON value is null.
pub uninterp spec fn json_is_null(v: serde_json::Value) -> bool;

/// Relies on `serde_json::from_str::<serde_json::Value>`: whether and to what
/// a text parses depends on the text alone.
#[verifier::external_body]
pub(crate) fn parse_json(payload: &str) -> (r: Option<serde_json::Value>)
    ensures
        r == json_doc_of(payload@),
{
    match serde_json::from_str::<serde_json::Value>(payload) {
        Ok(v) => Some(v),
        Err(_) => None,
    }
}

/// Relies on `serde_json::Value::get` with a string index: the member under
/// the key when `v` is an object that has it, `None` for every other value or
/// a missing key.
#[verifier::external_body]
pub(crate) fn json_get<'a>(v: &'a serde_json::Value, key: &str) -> (r: Option<
    &'a serde_json::Value,
>)
    ensures
        match r {
            Some(m) => json_member_of(*v, key@) == Some(*m),
            None => json_member_of(*v, key@) is None,
        },
{
    v.get(key)
}

/// Relies on `serde_json::Value::as_i64`: `Some` exactly for numbers that are
/// integers representable as `i64`.
#[verifier::external_body]
pub(crate) fn json_as_i64(v: &serde_json::Value) -> (r: Option<i64>)
    ensures
        r == json_i64_of(*v),
{
    v.as_i64()
}

/// Relies on `serde_json::Value::as_str`: `Some` of the held text exactly for
/// JSON strings.
#[verifier::external_body]
pub(crate) fn json_as_string(v: &serde_json::Value) -> (r: Option<String>)
    ensures
        match r {
            Some(s) => json_str_of(*v) == Some(s@),
            None => json_str_of(*v) is None,
        },
{
    v.as_str().map(|s| s.to_string())
}

/// Relies on `serde_json::Value::is_null`: true exactly for JSON null.
#[verifier::external_body]
pub(crate) fn json_value_is_null(v: &serde_json::Value) -> (r: bool)
    ensures
        r == json_is_null(*v),
{
    v.is_null()
}

} // verus!
