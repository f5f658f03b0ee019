//! Decoding the JSON documents that hold an edition's reference tables.
use std::collections::HashMap;

use vstd::prelude::*;

use crate::text::str_eq;

verus! {

/// The text of each string.
pub open spec fn texts(v: Seq<String>) -> Seq<Seq<char>> {
    v.map_values(|s: String| s@)
}

/// The list of strings that the JSON document `doc` holds, or `None` when it is
/// not a JSON array of strings.
pub uninterp spec fn string_list_of(doc: Seq<u8>) -> Option<Seq<Seq<char>>>;

/// The map from string to string that the JSON document `doc` holds, or `None`
/// when it is not a JSON object whose values are all strings.
pub uninterp spec fn string_map_of(doc: Seq<u8>) -> Option<Map<Seq<char>, Seq<char>>>;

/// The map from string to list of strings that the JSON document `doc` holds, or
/// `None` when it is not a JSON object whose values are all arrays of strings.
pub uninterp spec fn list_map_of(doc: Seq<u8>) -> Option<Map<Seq<char>, Seq<Seq<char>>>>;

/// Whether the pairs `v` list each entry of `m` exactly once.
pub open spec fn lists_map<V>(v: Seq<(String, V)>, m: Map<Seq<char>, V>) -> bool {
    &&& forall|i: int| 0 <= i < v.len() ==> #[trigger] m.contains_key(v[i].0@) && m[v[i].0@] == v[i].1
    &&& forall|k: Seq<char>| #[trigger] m.contains_key(k) ==> exists|i: int| 0 <= i < v.len() && #[trigger] v[i].0@ == k
    &&& forall|i: int, j: int| 0 <= i < j < v.len() ==> #[trigger] v[i].0@ != #[trigger] v[j].0@
}

/// Whether the `(key, value)` pairs `v` list each entry of `m` exactly once.
pub open spec fn lists_names(v: Seq<(String, String)>, m: Map<Seq<char>, Seq<char>>) -> bool {
    lists_map(v.map_values(|p: (String, String)| (p.0, p.1@)), m)
}

/// Whether the `(key, values)` pairs `v` list each entry of `m` exactly once.
pub open spec fn lists_lists(v: Seq<(String, Vec<String>)>, m: Map<Seq<char>, Seq<Seq<char>>>) -> bool {
    lists_map(v.map_values(|p: (String, Vec<String>)| (p.0, texts(p.1@))), m)
}

/// Relies on serde_json::from_slice into `Vec<String>`: decodes a JSON array of
/// strings; the outcome depends on the bytes alone.
#[verifier::external_body]
pub(crate) fn decode_string_list(doc: &[u8]) -> (r: Result<Vec<String>, serde_json::Error>)
    ensures
        match r {
            Ok(v) => string_list_of(doc@) == Some(texts(v@)),
            Err(_) => string_list_of(doc@) is None,
        },
{
    serde_json::from_slice::<Vec<String>>(doc)
}

/// Relies on serde_json::from_slice into `HashMap<String, String>`: decodes a
/// JSON object of strings; the entries depend on the bytes alone, and walking
/// the map yields each entry once.
#[verifier::external_body]
pub(crate) fn decode_string_map(doc: &[u8]) -> (r: Result<Vec<(String, String)>, serde_json::Error>)
    ensures
        match r {
            Ok(v) => string_map_of(doc@) matches Some(m) && lists_names(v@, m),
            Err(_) => string_map_of(doc@) is None,
        },
{
    serde_json::from_slice::<HashMap<String, String>>(doc).map(|m| m.into_iter().collect())
}

/// Relies on serde_json::from_slice into `HashMap<String, Vec<String>>`: decodes
/// a JSON object of string arrays; the entries depend on the bytes alone, and
/// walking the map yields each entry once.
#[verifier::external_body]
pub(crate) fn decode_list_map(doc: &[u8]) -> (r: Result<Vec<(String, Vec<String>)>, serde_json::Error>)
    ensures
        match r {
            Ok(v) => list_map_of(doc@) matches Some(m) && lists_lists(v@, m),
            Err(_) => list_map_of(doc@) is None,
        },
{
    serde_json::from_slice::<HashMap<String, Vec<String>>>(doc).map(|m| m.into_iter().collect())
}

/// Given pairs that list a map, a key has a pair exactly when the map has it.
pub proof fn lemma_listed_names(v: Seq<(String, String)>, m: Map<Seq<char>, Seq<char>>, id: Seq<char>)
    requires
        lists_names(v, m),
    ensures
        has_name(v, id) <==> m.contains_key(id),
{
    let w = v.map_values(|p: (String, String)| (p.0, p.1@));
    if has_name(v, id) {
        let j = choose|j: int| 0 <= j < v.len() && #[trigger] v[j].0@ == id;
        assert(w[j].0@ == id);
    }
    if m.contains_key(id) {
        let i = choose|i: int| 0 <= i < w.len() && #[trigger] w[i].0@ == id;
        assert(v[i].0@ == id);
    }
}

/// Whether `names` holds a display name for the level `id`.
pub open spec fn has_name(names: Seq<(String, String)>, id: Seq<char>) -> bool {
    exists|j: int| 0 <= j < names.len() && #[trigger] names[j].0@ == id
}

/// Where `names` holds the display name of the level `id`, if it does.
pub fn find_name(names: &Vec<(String, String)>, id: &str) -> (r: Option<usize>)
    ensures
        match r {
            Some(j) => j < names@.len() && names@[j as int].0@ == id@,
            None => !has_name(names@, id@),
        },
{
    let mut j: usize = 0;
    while j < names.len()
        invariant
            j <= names@.len(),
            forall|k: int| 0 <= k < j ==> #[trigger] names@[k].0@ != id@,
        decreases names@.len() - j,
    {
        if str_eq(names[j].0.as_str(), id) {
            return Some(j);
        }
        j = j + 1;
    }
    None
}

} // verus!
