//! The JSON texts the journal reads and writes, through `serde_json`.
use vstd::prelude::*;

verus! {

/// What `serde_json` finds under `key` in the JSON text `text`: `None` when the
/// text is not JSON, `Some(None)` when it holds no string under that key, and
/// `Some(Some(s))` when it does.
pub uninterp spec fn json_text_field(text: Seq<char>, key: Seq<char>) -> Option<Option<Seq<char>>>;

/// The JSON text `serde_json` writes for the object `{k1: v1, k2: v2}` of strings.
pub uninterp spec fn json_pair_object_text(k1: Seq<char>, v1: Seq<char>, k2: Seq<char>, v2: Seq<char>) -> Seq<char>;

/// `serde_json::from_str::<Value>(text)`, then `get(key)` and `as_str()`: what
/// the text holds under `key`, named by `json_text_field`.
#[verifier::external_body]
pub(crate) fn json_str_field(text: &str, key: &str) -> (r: Option<Option<String>>)
    ensures
        match r {
            None => json_text_field(text@, key@).is_none(),
            Some(None) => json_text_field(text@, key@) == Some(None::<Seq<char>>),
            Some(Some(s)) => json_text_field(text@, key@) == Some(Some(s@)),
        },
{
    match serde_json::from_str::<serde_json::Value>(text) {
        Ok(v) => Some(v.get(key).and_then(|x| x.as_str()).map(|x| x.to_string())),
        Err(_) => None,
    }
}

/// `serde_json::Value::Object` with the two string members, written by
/// `to_string`. Reading that text back gives each member's value under its key.
#[verifier::external_body]
pub(crate) fn json_pair_object(k1: &str, v1: &str, k2: &str, v2: &str) -> (r: String)
    ensures
        r@ == json_pair_object_text(k1@, v1@, k2@, v2@),
        k1@ != k2@ ==> json_text_field(r@, k1@) == Some(Some(v1@)),
        k1@ != k2@ ==> json_text_field(r@, k2@) == Some(Some(v2@)),
{
    let mut map = serde_json::Map::new();
    map.insert(k1.to_string(), serde_json::Value::String(v1.to_string()));
    map.insert(k2.to_string(), serde_json::Value::String(v2.to_string()));
    serde_json::Value::Object(map).to_string()
}

/// What `serde_json` finds under `key` in the JSON text `text`: `None` when the
/// text is not JSON, `Some(None)` when it holds no unsigned integer under that
/// key, and `Some(Some(n))` when it does.
pub uninterp spec fn json_u64_value(text: Seq<char>, key: Seq<char>) -> Option<Option<u64>>;

/// `serde_json::from_str::<Value>`, then the unsigned integer under `key`.
#[verifier::external_body]
pub(crate) fn json_u64_field(text: &str, key: &str) -> (r: Option<Option<u64>>)
    ensures
        r == json_u64_value(text@, key@),
{
    match serde_json::from_str::<serde_json::Value>(text) {
        Ok(v) => Some(v.get(key).and_then(|x| x.as_u64())),
        Err(_) => None,
    }
}

} // verus!
