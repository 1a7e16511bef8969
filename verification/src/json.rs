//! The boundary to `serde_json`: JSON documents are held as text, and the
//! three questions the client asks of a document are answered by the parser.

use vstd::prelude::*;

verus! {

/// The compact rendering of the JSON value that `text` parses to, or `None`
/// where `text` is not a JSON document.
pub uninterp spec fn json_compact(text: Seq<char>) -> Option<Seq<char>>;

/// The member `key` of the JSON object that `text` parses to, rendered
/// compactly; `None` where `text` is not a JSON object or has no such member.
pub uninterp spec fn json_member(text: Seq<char>, key: Seq<char>) -> Option<Seq<char>>;

/// The member names of the JSON object that `text` parses to, in the order in
/// which the parsed object holds them; `None` where `text` is not a JSON
/// object.
pub uninterp spec fn json_keys(text: Seq<char>) -> Option<Seq<Seq<char>>>;

/// Parses `text` with `serde_json::from_str` into a `serde_json::Value` and
/// renders the value with its `Display` impl, which writes compact JSON.
/// Trusted: the result is what `json_compact` names.
#[verifier::external_body]
pub(crate) fn compact(text: &str) -> (r: Option<String>)
    ensures
        r.deep_view() == json_compact(text@),
{
    match serde_json::from_str::<serde_json::Value>(text) {
        Ok(value) => Some(value.to_string()),
        Err(_) => None,
    }
}

/// Parses `text` with `serde_json::from_str`, looks `key` up with
/// `serde_json::Value::get`, which answers only for an object that has the
/// member, and renders the member compactly.
/// Trusted: the result is what `json_member` names.
#[verifier::external_body]
pub(crate) fn member(text: &str, key: &str) -> (r: Option<String>)
    ensures
        r.deep_view() == json_member(text@, key@),
{
    match serde_json::from_str::<serde_json::Value>(text) {
        Ok(value) => match value.get(key) {
            Some(found) => Some(found.to_string()),
            None => None,
        },
        Err(_) => None,
    }
}

/// Parses `text` with `serde_json::from_str` and, where the value is an
/// object, collects what `serde_json::Map::keys` yields.
/// Trusted: the result is what `json_keys` names.
#[verifier::external_body]
pub(crate) fn keys(text: &str) -> (r: Option<Vec<String>>)
    ensures
        r.deep_view() == json_keys(text@),
{
    match serde_json::from_str::<serde_json::Value>(text) {
        Ok(serde_json::Value::Object(map)) => Some(map.keys().cloned().collect()),
        _ => None,
    }
}

} // verus!
