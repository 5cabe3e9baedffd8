//! Reading and writing the YAML of component settings files with `serde_yaml`:
//! what a document holds under a path of keys, and the document with settings
//! stored under such a path.
use vstd::prelude::*;
use crate::text::{opt_view, string_views};

verus! {

/// The entries of the mapping reached from the root of the YAML document `text`
/// by the keys of `path`: each key as its string (`None` for a key that is no
/// string) and each value as JSON text (`None` when it has no JSON form).  `None`
/// when `text` does not parse or the path does not lead to a mapping.
pub uninterp spec fn yaml_json_entries_under(
    text: Seq<char>,
    path: Seq<Seq<char>>,
) -> Option<Seq<(Option<Seq<char>>, Option<Seq<char>>)>>;

/// The keys of the mapping reached from the root of the YAML document `text` by
/// the keys of `path`, each as its string (`None` for a key that is no string).
pub uninterp spec fn yaml_keys_under(text: Seq<char>, path: Seq<Seq<char>>) -> Option<Seq<Option<Seq<char>>>>;

/// The YAML document `text` (an empty mapping when it does not parse) with each
/// of `entries` (a key and the YAML text of its value) inserted in turn into the
/// mapping under `outer` then `inner` (each created as an empty mapping when
/// missing), written back as YAML text.
pub uninterp spec fn yaml_with_settings(
    text: Seq<char>,
    outer: Seq<char>,
    inner: Seq<char>,
    entries: Seq<(Seq<char>, Seq<char>)>,
) -> Seq<char>;

/// The YAML text `serde_yaml` writes for the string `s`.
pub uninterp spec fn yaml_string_text(s: Seq<char>) -> Seq<char>;

pub open spec fn opt_pair_views(
    o: Option<Vec<(Option<String>, Option<String>)>>,
) -> Option<Seq<(Option<Seq<char>>, Option<Seq<char>>)>> {
    match o {
        Some(v) => Some(v@.map_values(|e: (Option<String>, Option<String>)| (opt_view(e.0), opt_view(e.1)))),
        None => None,
    }
}

pub open spec fn opt_value_pairs(v: Seq<(String, Option<String>)>) -> Seq<(Seq<char>, Option<Seq<char>>)> {
    v.map_values(|e: (String, Option<String>)| (e.0@, opt_view(e.1)))
}

pub open spec fn opt_key_views(o: Option<Vec<Option<String>>>) -> Option<Seq<Option<Seq<char>>>> {
    match o {
        Some(v) => Some(v@.map_values(|k: Option<String>| opt_view(k))),
        None => None,
    }
}

/// `serde_yaml::from_str`, then `Value::as_mapping` and `Mapping::get` along
/// `path`; for each entry of the mapping reached, `Value::as_str` on the key and
/// `serde_json::to_value` on the value, written with its `Display`.
#[verifier::external_body]
fn yaml_json_entries(text: &str, path: &Vec<String>) -> (r: Option<Vec<(Option<String>, Option<String>)>>)
    ensures
        opt_pair_views(r) == yaml_json_entries_under(text@, string_views(path@)),
{
    let root = serde_yaml::from_str::<serde_yaml::Value>(text).ok()?;
    let mut v = &root;
    for k in path {
        v = v.as_mapping()?.get(k.as_str())?;
    }
    let m = v.as_mapping()?;
    Some(m.iter().map(|(k, x)| (k.as_str().map(String::from), serde_json::to_value(x).ok().map(|j| j.to_string()))).collect())
}

/// `serde_yaml::from_str`, then `Value::as_mapping` and `Mapping::get` along
/// `path`; `Value::as_str` on each key of the mapping reached.
#[verifier::external_body]
fn yaml_mapping_keys(text: &str, path: &Vec<String>) -> (r: Option<Vec<Option<String>>>)
    ensures
        opt_key_views(r) == yaml_keys_under(text@, string_views(path@)),
{
    let root = serde_yaml::from_str::<serde_yaml::Value>(text).ok()?;
    let mut v = &root;
    for k in path {
        v = v.as_mapping()?.get(k.as_str())?;
    }
    Some(v.as_mapping()?.keys().map(|k| k.as_str().map(String::from)).collect())
}

/// `serde_yaml::from_str` (an empty `Mapping` when it fails), `Entry::or_insert`
/// of an empty `Mapping` under `outer` and `inner`, `Mapping::insert` of each
/// entry with its value read by `serde_yaml::from_str` (null when it fails), and
/// `serde_yaml::to_string`.
#[verifier::external_body]
fn yaml_store_settings(text: &str, outer: &str, inner: &str, entries: &Vec<(String, String)>) -> (r: String)
    ensures
        r@ == yaml_with_settings(text@, outer@, inner@, crate::json::pair_views(entries@)),
{
    let mut root: serde_yaml::Value = serde_yaml::from_str(text).unwrap_or(serde_yaml::Mapping::new().into());
    let slot = root.as_mapping_mut()
        .and_then(|m| m.entry(outer.into()).or_insert(serde_yaml::Mapping::new().into()).as_mapping_mut())
        .and_then(|o| o.entry(inner.into()).or_insert(serde_yaml::Mapping::new().into()).as_mapping_mut());
    if let Some(m) = slot {
        for (k, t) in entries {
            m.insert(k.as_str().into(), serde_yaml::from_str(t).unwrap_or(serde_yaml::Value::Null));
        }
    }
    serde_yaml::to_string(&root).unwrap_or_default()
}

/// `serde_yaml::to_string` of a string.
#[verifier::external_body]
fn yaml_string(s: &str) -> (r: String)
    ensures
        r@ == yaml_string_text(s@),
{
    serde_yaml::to_string(s).unwrap_or_default()
}

/// The entries under `path` of the YAML document `text`, values as JSON text.
pub fn json_entries_under(text: &str, path: &Vec<String>) -> (r: Option<Vec<(Option<String>, Option<String>)>>)
    ensures
        opt_pair_views(r) == yaml_json_entries_under(text@, string_views(path@)),
{
    yaml_json_entries(text, path)
}

/// The keys under `path` of the YAML document `text`.
pub fn keys_under(text: &str, path: &Vec<String>) -> (r: Option<Vec<Option<String>>>)
    ensures
        opt_key_views(r) == yaml_keys_under(text@, string_views(path@)),
{
    yaml_mapping_keys(text, path)
}

/// The YAML document `text` with `entries` inserted under `outer` then `inner`.
pub fn store_settings(text: &str, outer: &str, inner: &str, entries: &Vec<(String, String)>) -> (r: String)
    ensures
        r@ == yaml_with_settings(text@, outer@, inner@, crate::json::pair_views(entries@)),
{
    yaml_store_settings(text, outer, inner, entries)
}

/// The YAML text of the string `s`.
pub fn string_text(s: &str) -> (r: String)
    ensures
        r@ == yaml_string_text(s@),
{
    yaml_string(s)
}

} // verus!
