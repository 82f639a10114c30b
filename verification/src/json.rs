//! The trusted surface over `serde_json`.
//!
//! Wire messages arrive as JSON text and results travel back as JSON text,
//! so the bridge leans on `serde_json` for parsing and serialization.  A
//! `serde_json::Value` is opaque to the verifier; it is modelled here by
//! `json_text`, the compact serialization that `Value`'s `Display`
//! implementation produces, which is a function of the value alone.  Every
//! wrapper below states its result over that model.

use vstd::prelude::*;

verus! {

#[verifier::external_type_specification]
#[verifier::external_body]
pub struct ExValue(serde_json::Value);

/// The compact serialization of a JSON value: what
/// `serde_json::Value::to_string` returns for it.
pub uninterp spec fn json_text(v: serde_json::Value) -> Seq<char>;

/// What `serde_json::from_str::<Value>` yields on a text, rendered through
/// `json_text`: `Some` exactly when the text is valid JSON.
pub uninterp spec fn parsed_text(s: Seq<char>) -> Option<Seq<char>>;

/// What `serde_json::Value::get` yields for a string key, rendered through
/// `json_text`: `Some` exactly when the value is an object holding the key.
pub uninterp spec fn field_text(t: Seq<char>, key: Seq<char>) -> Option<Seq<char>>;

/// What `serde_json::Value::as_u64` yields: `Some` exactly when the value
/// is an integer representable as `u64`.
pub uninterp spec fn u64_value(t: Seq<char>) -> Option<u64>;

/// What `serde_json::Value::as_str` yields: `Some` exactly when the value
/// is a string.
pub uninterp spec fn str_value(t: Seq<char>) -> Option<Seq<char>>;

/// What `serde_json::Value::as_array` yields, each element rendered through
/// `json_text`: `Some` exactly when the value is an array.
pub uninterp spec fn array_texts(t: Seq<char>) -> Option<Seq<Seq<char>>>;

/// The compact serialization of `serde_json::Value::String(s)`: `s` quoted
/// and escaped.
pub uninterp spec fn string_value_text(s: Seq<char>) -> Seq<char>;

/// Relies on `serde_json::Value`'s `Display` implementation (via
/// `ToString`): the compact serialization, a function of the value alone.
#[verifier::external_body]
pub fn json_to_string(v: &serde_json::Value) -> (r: String)
    ensures
        r@ == json_text(*v),
{
    v.to_string()
}

/// Relies on `serde_json::from_str::<Value>`: parses a text as JSON,
/// deterministically in the text.
#[verifier::external_body]
pub fn json_parse(s: &str) -> (r: Option<serde_json::Value>)
    ensures
        r is Some <==> parsed_text(s@) is Some,
        r matches Some(v) ==> parsed_text(s@) == Some(json_text(v)),
{
    serde_json::from_str::<serde_json::Value>(s).ok()
}

/// Relies on `serde_json::Value::get` with a string index: looks the key up
/// when the value is an object, and yields `None` otherwise.
#[verifier::external_body]
pub fn json_get<'a>(v: &'a serde_json::Value, key: &str) -> (r: Option<&'a serde_json::Value>)
    ensures
        r is Some <==> field_text(json_text(*v), key@) is Some,
        r matches Some(f) ==> field_text(json_text(*v), key@) == Some(json_text(*f)),
{
    v.get(key)
}

/// Relies on `serde_json::Value::as_u64`: the number when the value is an
/// integer that fits in `u64`, and `None` otherwise.
#[verifier::external_body]
pub fn json_as_u64(v: &serde_json::Value) -> (r: Option<u64>)
    ensures
        r == u64_value(json_text(*v)),
{
    v.as_u64()
}

/// Relies on `serde_json::Value::as_str`: the string when the value is a
/// string, and `None` otherwise.
#[verifier::external_body]
pub fn json_as_str<'a>(v: &'a serde_json::Value) -> (r: Option<&'a str>)
    ensures
        r is Some <==> str_value(json_text(*v)) is Some,
        r matches Some(s) ==> str_value(json_text(*v)) == Some(s@),
{
    v.as_str()
}

/// Relies on `serde_json::Value::as_array`: the elements when the value is
/// an array, and `None` otherwise; the borrowed vector is cloned to an
/// owned one.
#[verifier::external_body]
pub fn json_as_array(v: &serde_json::Value) -> (r: Option<Vec<serde_json::Value>>)
    ensures
        r is Some <==> array_texts(json_text(*v)) is Some,
        r matches Some(a) ==> array_texts(json_text(*v)) == Some(
            a@.map_values(|e: serde_json::Value| json_text(e)),
        ),
{
    v.as_array().map(|a| a.clone())
}

/// Relies on the `serde_json::Value::String` constructor: wraps a string as
/// a JSON string value.
#[verifier::external_body]
pub fn json_string(s: String) -> (r: serde_json::Value)
    ensures
        json_text(r) == string_value_text(s@),
{
    serde_json::Value::String(s)
}

} // verus!
