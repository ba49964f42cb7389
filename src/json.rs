use std::collections::BTreeMap;

use serde_json::value::RawValue;
use vstd::prelude::*;

verus! {

/// The members of a JSON object, each key with the JSON text of its value,
/// or `None` where the text is not a JSON object.
pub uninterp spec fn json_object_members(text: Seq<char>) -> Option<Seq<(Seq<char>, Seq<char>)>>;

/// What a JSON text decodes to as an optional string: `None` where it is
/// neither a string nor `null`, `Some(None)` for `null`, and the string's
/// content otherwise.
pub uninterp spec fn json_optional_text(raw: Seq<char>) -> Option<Option<Seq<char>>>;

/// What a JSON text decodes to as an optional array of strings: `None` where
/// it is neither such an array nor `null`, `Some(None)` for `null`, and the
/// strings' contents otherwise.
pub uninterp spec fn json_optional_text_list(raw: Seq<char>) -> Option<Option<Seq<Seq<char>>>>;

/// The characters of each key and value of a list of pairs.
pub open spec fn pairs_view(v: Seq<(String, String)>) -> Seq<(Seq<char>, Seq<char>)> {
    v.map_values(|p: (String, String)| (p.0@, p.1@))
}

/// The characters of each string of a list.
pub open spec fn texts_view(v: Seq<String>) -> Seq<Seq<char>> {
    v.map_values(|s: String| s@)
}

/// Relies on `serde_json::from_str` into a `BTreeMap<String, Box<RawValue>>`:
/// it succeeds on a JSON object and then gives each member's key, unescaped,
/// with the raw JSON text of its value.
#[verifier::external_body]
pub(crate) fn object_members(text: &str) -> (r: Option<Vec<(String, String)>>)
    ensures
        match json_object_members(text@) {
            None => r is None,
            Some(m) => r is Some && pairs_view(r->Some_0@) == m,
        },
{
    let parsed = serde_json::from_str::<BTreeMap<String, Box<RawValue>>>(text).ok()?;
    Some(parsed.into_iter().map(|(k, v)| (k, v.get().to_string())).collect())
}

/// Relies on `serde_json::from_str` into an `Option<String>`: `null` gives
/// `None`, a JSON string its unescaped content, anything else an error.
#[verifier::external_body]
pub(crate) fn optional_text(raw: &str) -> (r: Option<Option<String>>)
    ensures
        match json_optional_text(raw@) {
            None => r is None,
            Some(None) => r == Some(None::<String>),
            Some(Some(t)) => r is Some && r->Some_0 is Some && r->Some_0->Some_0@ == t,
        },
{
    serde_json::from_str::<Option<String>>(raw).ok()
}

/// Relies on `serde_json::from_str` into an `Option<Vec<String>>`: `null`
/// gives `None`, an array of JSON strings their contents in order, anything
/// else an error.
#[verifier::external_body]
pub(crate) fn optional_text_list(raw: &str) -> (r: Option<Option<Vec<String>>>)
    ensures
        match json_optional_text_list(raw@) {
            None => r is None,
            Some(None) => r == Some(None::<Vec<String>>),
            Some(Some(l)) => r is Some && r->Some_0 is Some && texts_view(r->Some_0->Some_0@) == l,
        },
{
    serde_json::from_str::<Option<Vec<String>>>(raw).ok()
}

} // verus!
