//! Trusted access to serde_json's JSON value model. A parsed value is opaque
//! to verification, so what each accessor yields is given a name: an
//! uninterpreted function of the value (and key) alone. Each wrapper holds
//! one serde_json call and ties its result to the name; everything composed
//! from them is verified.

use vstd::prelude::*;

verus! {

/// serde_json's parsed JSON value, declared so it can stand in signatures.
#[verifier::external_type_specification]
#[verifier::external_body]
pub struct ExValue(serde_json::Value);

/// What a text parses to as JSON: the parsed value, or nothing where the
/// text is not valid JSON. The parse result depends on the text alone.
pub uninterp spec fn json_parsed(body: Seq<char>) -> Option<serde_json::Value>;

/// The elements a JSON value holds, where it is an array.
pub uninterp spec fn json_elements(v: serde_json::Value) -> Option<Seq<serde_json::Value>>;

/// The member a JSON value holds at a key, where it is an object with one.
pub uninterp spec fn json_member(v: serde_json::Value, key: Seq<char>) -> Option<
    serde_json::Value,
>;

/// The text a JSON value holds, where it is a string.
pub uninterp spec fn json_text(v: serde_json::Value) -> Option<Seq<char>>;

/// Relies on serde_json::from_str::<Value>: `Ok` exactly where the text is
/// valid JSON, `Err` (never a panic) otherwise.
#[verifier::external_body]
pub fn parse_json(body: &str) -> (r: Option<serde_json::Value>)
    ensures
        r == json_parsed(body@),
{
    serde_json::from_str(body).ok()
}

/// Relies on serde_json::Value::as_array: `Some` of the element list where
/// the value is a JSON array, `None` otherwise.
#[verifier::external_body]
pub fn as_array(v: &serde_json::Value) -> (r: Option<&Vec<serde_json::Value>>)
    ensures
        match r {
            Some(a) => json_elements(*v) == Some(a@),
            None => json_elements(*v) is None,
        },
{
    v.as_array()
}

/// Relies on serde_json::Value::get: the member at the key where the value
/// is a JSON object holding it, `None` otherwise.
#[verifier::external_body]
pub fn get_member<'a>(v: &'a serde_json::Value, key: &str) -> (r: Option<&'a serde_json::Value>)
    ensures
        match r {
            Some(m) => json_member(*v, key@) == Some(*m),
            None => json_member(*v, key@) is None,
        },
{
    v.get(key)
}

/// Relies on serde_json::Value::as_str: the text where the value is a JSON
/// string, `None` otherwise.
#[verifier::external_body]
pub fn as_text(v: &serde_json::Value) -> (r: Option<String>)
    ensures
        match r {
            Some(s) => json_text(*v) == Some(s@),
            None => json_text(*v) is None,
        },
{
    v.as_str().map(|s| s.to_owned())
}

} // verus!
