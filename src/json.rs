//! Reading string members of JSON documents.
use vstd::prelude::*;

verus! {

/// The string member `key` of the JSON object written in `doc`; `None` when
/// `doc` is not JSON, not an object, or has no such member holding a string.
pub uninterp spec fn json_string_member(doc: Seq<char>, key: Seq<char>) -> Option<Seq<char>>;

/// Relies on `serde_json::from_str` into a `serde_json::Value`, then
/// `Value::get` and `Value::as_str`: which string a key holds depends on the
/// document's text alone.
#[verifier::external_body]
pub(crate) fn string_member(doc: &str, key: &str) -> (r: Option<String>)
    ensures
        r is Some <==> json_string_member(doc@, key@) is Some,
        r is Some ==> r->0@ == json_string_member(doc@, key@)->0,
{
    match serde_json::from_str::<serde_json::Value>(doc) {
        Ok(value) => value.get(key).and_then(serde_json::Value::as_str).map(String::from),
        Err(_) => None,
    }
}

} // verus!
