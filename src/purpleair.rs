//! Credentials of the air-quality service.
use vstd::prelude::*;
use crate::json::{json_string_member, string_member};

verus! {

/// The sensor id and API key of the air-quality service.
#[derive(Debug)]
pub struct Credentials {
    pub id: String,
    pub key: String,
}

/// Reads credentials from a JSON object with string members `id` and `key`;
/// `None` when either is missing or not a string.
pub fn credentials_from_json(contents: &str) -> (r: Option<Credentials>)
    ensures
        r is Some <==> (json_string_member(contents@, "id"@) is Some && json_string_member(
            contents@,
            "key"@,
        ) is Some),
        r matches Some(c) ==> c.id@ == json_string_member(contents@, "id"@)->0 && c.key@
            == json_string_member(contents@, "key"@)->0,
{
    match (string_member(contents, "id"), string_member(contents, "key")) {
        (Some(id), Some(key)) => Some(Credentials { id, key }),
        _ => None,
    }
}

} // verus!
