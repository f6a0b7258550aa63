//! The trusted boundary around `serde_json`. Decoded JSON values are
//! opaque here: each accessor's result is tied to an uninterpreted name,
//! so that everything read out of a response body is a function of that
//! body's text alone. All interpretation of the extracted data happens
//! in verified code elsewhere in the crate.

use vstd::prelude::*;

verus! {

#[verifier::external_type_specification]
#[verifier::external_body]
pub struct ExValue(serde_json::Value);

/// What `serde_json::from_str::<Value>` yields on a given text: the decoded
/// value, or nothing when the text is not well-formed JSON.
pub uninterp spec fn json_of(s: Seq<char>) -> Option<serde_json::Value>;

/// What `serde_json::Value::get` yields on a value and a string key: the
/// member of that name when the value is an object carrying one.
pub uninterp spec fn json_field(v: serde_json::Value, key: Seq<char>) -> Option<serde_json::Value>;

/// What `serde_json::Value::as_array` yields: the elements in order when
/// the value is an array.
pub uninterp spec fn json_items(v: serde_json::Value) -> Option<Seq<serde_json::Value>>;

/// What `serde_json::Value::as_str` yields: the characters when the value
/// is a string.
pub uninterp spec fn json_str(v: serde_json::Value) -> Option<Seq<char>>;

/// What rendering a `serde_json::Value` through its `Display` impl yields.
pub uninterp spec fn json_text(v: serde_json::Value) -> Seq<char>;

/// Relies on `serde_json::from_str::<Value>`: decoding is a function of
/// the input text alone; a text that fails to decode yields `None`.
#[verifier::external_body]
pub(crate) fn parse_json(s: &str) -> (r: Option<serde_json::Value>)
    ensures
        r == json_of(s@),
{
    serde_json::from_str(s).ok()
}

/// Relies on `serde_json::Value::get` with a string key: looks the key up
/// when the value is an object, and yields `None` otherwise.
#[verifier::external_body]
pub(crate) fn get_field<'a>(v: &'a serde_json::Value, key: &str) -> (r: Option<&'a serde_json::Value>)
    ensures
        r is Some <==> json_field(*v, key@) is Some,
        r matches Some(f) ==> json_field(*v, key@) == Some(*f),
{
    v.get(key)
}

/// Relies on `serde_json::Value::as_array`: yields the elements when the
/// value is an array, and `None` otherwise.
#[verifier::external_body]
pub(crate) fn as_items<'a>(v: &'a serde_json::Value) -> (r: Option<&'a Vec<serde_json::Value>>)
    ensures
        r is Some <==> json_items(*v) is Some,
        r matches Some(a) ==> json_items(*v) == Some(a@),
{
    v.as_array()
}

/// Relies on `serde_json::Value::as_str`: yields the characters when the
/// value is a string, and `None` otherwise.
#[verifier::external_body]
pub(crate) fn as_text<'a>(v: &'a serde_json::Value) -> (r: Option<&'a str>)
    ensures
        r is Some <==> json_str(*v) is Some,
        r matches Some(s) ==> json_str(*v) == Some(s@),
{
    v.as_str()
}

/// Relies on the `Display` impl of `serde_json::Value`: renders the value
/// as compact JSON text, a function of the value alone.
#[verifier::external_body]
pub(crate) fn render(v: &serde_json::Value) -> (r: String)
    ensures
        r@ == json_text(*v),
{
    v.to_string()
}

} // verus!
