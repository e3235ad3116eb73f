//! The JSON values that the library carries and reads, through `serde_json`.
use vstd::prelude::*;

verus! {

/// A JSON document, held as `serde_json` parsed it.
#[verifier::external_type_specification]
#[verifier::external_body]
pub struct ExValue(serde_json::Value);

/// What `serde_json` finds in `text` under `key`: `None` when `text` is not a
/// JSON document, else the string that the top-level object holds under
/// `key`, if it is an object and that member is a string.
pub uninterp spec fn json_string_member(text: Seq<char>, key: Seq<char>) -> Option<Option<Seq<char>>>;

pub open spec fn opt_view(o: Option<String>) -> Option<Seq<char>> {
    match o {
        Some(s) => Some(s@),
        None => None,
    }
}

/// Relies on `serde_json::from_str` into a `serde_json::Value`, then
/// `Value::get` and `Value::as_str`: reads the string member `key` of the
/// document in `text`. The error is the parser's message.
#[verifier::external_body]
pub(crate) fn read_string_member(text: &str, key: &str) -> (r: Result<Option<String>, String>)
    ensures
        match r {
            Ok(m) => json_string_member(text@, key@) == Some(opt_view(m)),
            Err(_) => json_string_member(text@, key@) is None,
        },
{
    match serde_json::from_str::<serde_json::Value>(text) {
        Ok(v) => Ok(v.get(key).and_then(|m| m.as_str()).map(|s| s.to_string())),
        Err(e) => Err(e.to_string()),
    }
}

} // verus!
