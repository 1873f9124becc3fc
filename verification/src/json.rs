//! Trusted access to JSON response bodies.
//!
//! The protocol documents exchanged with the authority are JSON objects; the
//! crate reads single members out of them through `serde_json`.  What a given
//! member of a given body holds is a pure function of the bytes, so each
//! accessor's result is given a name that the rest of the crate reasons with.

use vstd::prelude::*;

verus! {

/// The string member named `key` of the JSON object encoded by `body`, if
/// `body` is a valid JSON object and that member is a string.
pub uninterp spec fn json_str_member_of(body: Seq<u8>, key: Seq<char>) -> Option<Seq<char>>;

/// The unsigned-integer member named `key` of the JSON object encoded by
/// `body`, if present and integral.
pub uninterp spec fn json_u64_member_of(body: Seq<u8>, key: Seq<char>) -> Option<u64>;

/// The member named `key` of the JSON object encoded by `body`, if it is an
/// array whose elements are all strings.
pub uninterp spec fn json_str_list_member_of(body: Seq<u8>, key: Seq<char>) -> Option<Seq<Seq<char>>>;

/// Relies on `serde_json::from_slice`, `serde_json::Value::get` and
/// `serde_json::Value::as_str`: the string member named `key` of the JSON
/// object in `body`.
#[verifier::external_body]
pub(crate) fn json_str_member(body: &[u8], key: &str) -> (r: Option<String>)
    ensures
        match r {
            Some(s) => json_str_member_of(body@, key@) == Some(s@),
            None => json_str_member_of(body@, key@) is None,
        },
{
    let value: serde_json::Value = match serde_json::from_slice(body) {
        Ok(v) => v,
        Err(_) => return None,
    };
    value.get(key).and_then(|m| m.as_str()).map(|s| s.to_string())
}

/// Relies on `serde_json::from_slice`, `serde_json::Value::get` and
/// `serde_json::Value::as_u64`: the unsigned-integer member named `key` of
/// the JSON object in `body`.
#[verifier::external_body]
pub(crate) fn json_u64_member(body: &[u8], key: &str) -> (r: Option<u64>)
    ensures
        match r {
            Some(n) => json_u64_member_of(body@, key@) == Some(n),
            None => json_u64_member_of(body@, key@) is None,
        },
{
    let value: serde_json::Value = match serde_json::from_slice(body) {
        Ok(v) => v,
        Err(_) => return None,
    };
    value.get(key).and_then(|m| m.as_u64())
}

/// Relies on `serde_json::from_slice`, `serde_json::Value::get`,
/// `serde_json::Value::as_array` and `serde_json::Value::as_str`: the
/// all-string array member named `key` of the JSON object in `body`, each
/// element handed out as a plain string.
#[verifier::external_body]
pub(crate) fn json_str_list_member(body: &[u8], key: &str) -> (r: Option<Vec<String>>)
    ensures
        match r {
            Some(l) => json_str_list_member_of(body@, key@) == Some(l@.map_values(|s: String| s@)),
            None => json_str_list_member_of(body@, key@) is None,
        },
{
    let value: serde_json::Value = match serde_json::from_slice(body) {
        Ok(v) => v,
        Err(_) => return None,
    };
    let items = value.get(key).and_then(|m| m.as_array())?;
    items.iter().map(|m| m.as_str().map(|s| s.to_string())).collect()
}

} // verus!
