//! Reading fields of JSON documents stored as text.
use vstd::prelude::*;

verus! {

/// The string stored under `key` in the JSON object `doc`, as
/// `serde_json::from_str::<Value>(doc)` and then `value[key].as_str()` give
/// it; `None` where `doc` is not JSON, not an object, lacks the key, or holds
/// something other than a string there.
pub uninterp spec fn json_text_field(doc: Seq<char>, key: Seq<char>) -> Option<Seq<char>>;

/// Reads the string field `key` of the JSON object `doc` with `serde_json`.
/// The result is named; the contract claims nothing else of it.
#[verifier::external_body]
pub fn json_str_field(doc: &str, key: &str) -> (r: Option<String>)
    ensures
        r.deep_view() == json_text_field(doc@, key@),
{
    let v: serde_json::Value = match serde_json::from_str(doc) {
        Ok(v) => v,
        Err(_) => return None,
    };
    match v.get(key) {
        Some(serde_json::Value::String(s)) => Some(s.clone()),
        _ => None,
    }
}

} // verus!
