//! The JSON documents that DisplayMux reads, parsed by `serde_json`.

use std::collections::BTreeMap;
use vstd::prelude::*;

verus! {

/// `serde_json::Error`, carried along without looking inside.
#[verifier::external_type_specification]
#[verifier::external_body]
pub struct ExJsonError(serde_json::Error);

/// `serde_json::Value`, a parsed document. Of its contents only the member names matter here.
#[verifier::external_type_specification]
#[verifier::external_body]
pub struct ExJsonValue(serde_json::Value);

/// The member names of a JSON object; none for a value of another kind.
pub uninterp spec fn json_members(value: serde_json::Value) -> Set<Seq<char>>;

/// The member names of the JSON value that `serde_json::from_str` reads from a text, or `None`
/// where the text is not JSON.
pub uninterp spec fn json_document(text: Seq<char>) -> Option<Set<Seq<char>>>;

/// The map from texts to texts that `serde_json::from_str` reads from a text, or `None` where
/// the text is not a JSON object whose members are all strings.
pub uninterp spec fn json_texts(text: Seq<char>) -> Option<Map<Seq<char>, Seq<char>>>;

/// The map that a list of entries stands for, a later entry going before an earlier one.
pub open spec fn entry_map(entries: Seq<(String, String)>) -> Map<Seq<char>, Seq<char>>
    decreases entries.len(),
{
    if entries.len() == 0 {
        Map::empty()
    } else {
        entry_map(entries.drop_last()).insert(entries.last().0@, entries.last().1@)
    }
}

/// `serde_json::from_str` at `Value`: reads any JSON document.
#[verifier::external_body]
pub(crate) fn parse_json(text: &str) -> (value: Result<serde_json::Value, serde_json::Error>)
    ensures
        match value {
            Ok(value) => json_document(text@) == Some(json_members(value)),
            Err(_) => json_document(text@) is None,
        },
{
    serde_json::from_str::<serde_json::Value>(text)
}

/// `serde_json::Value::get` with a text: whether the value is an object with such a member.
#[verifier::external_body]
pub(crate) fn has_member(value: &serde_json::Value, name: &str) -> (found: bool)
    ensures
        found == json_members(*value).contains(name@),
{
    value.get(name).is_some()
}

/// `serde_json::from_str` at `BTreeMap<String, String>`: reads an object of texts. The entries
/// come out one by one.
#[verifier::external_body]
pub(crate) fn parse_texts(text: &str) -> (entries: Result<
    Vec<(String, String)>,
    serde_json::Error,
>)
    ensures
        match entries {
            Ok(entries) => json_texts(text@) == Some(entry_map(entries@)),
            Err(_) => json_texts(text@) is None,
        },
{
    serde_json::from_str::<BTreeMap<String, String>>(text).map(|map| map.into_iter().collect())
}

} // verus!
