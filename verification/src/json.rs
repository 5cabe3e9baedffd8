//! Reading the JSON companion files of a model and JSON chat prompts: what
//! `serde_json` finds at a key, and the choices the library makes among keys.
use vstd::prelude::*;
use crate::text::opt_view;
use crate::serving::components::{payload_entries_view, PayloadValue};

verus! {

/// Does `text` parse (with `serde_json`) as a JSON object that has the key `key`?
pub uninterp spec fn json_has_key(text: Seq<char>, key: Seq<char>) -> bool;

/// The string at `key` of the JSON object `text`; `None` when `text` does not parse
/// as an object, the key is absent, or its value is no string.
pub uninterp spec fn json_str_at(text: Seq<char>, key: Seq<char>) -> Option<Seq<char>>;

/// The unsigned integer at `key` of the JSON object `text` (`Value::as_u64`).
pub uninterp spec fn json_u64_at(text: Seq<char>, key: Seq<char>) -> Option<u64>;

/// The items of the array at `key` of the JSON object `text`, each the string it
/// holds or `None` for an item that is no string; `None` when there is no array there.
pub uninterp spec fn json_items_at(text: Seq<char>, key: Seq<char>) -> Option<Seq<Option<Seq<char>>>>;

/// The entries of the object at `key` of the JSON object `text`, in `serde_json`'s
/// map order, each value the string it holds or `None`.
pub uninterp spec fn json_entries_at(text: Seq<char>, key: Seq<char>) -> Option<Seq<(Seq<char>, Option<Seq<char>>)>>;

/// The entries of the JSON object `text`, as `json_entries_at` gives them.
pub uninterp spec fn json_entries(text: Seq<char>) -> Option<Seq<(Seq<char>, Option<Seq<char>>)>>;

/// The value at `key` of the JSON object `text`, written back as compact JSON text.
pub uninterp spec fn json_value_text_at(text: Seq<char>, key: Seq<char>) -> Option<Seq<char>>;

/// The entries of the object at `key` of the JSON object `text`, each value told
/// apart by its kind (numbers as their JSON text).
pub uninterp spec fn json_setting_entries_at(
    text: Seq<char>,
    key: Seq<char>,
) -> Option<Seq<(Seq<char>, crate::serving::components::PayloadView)>>;

/// Does `text` parse as JSON?
pub uninterp spec fn json_parses(text: Seq<char>) -> bool;

/// The items of the JSON array `text`, each as compact JSON text (`Value`'s
/// `Display`); `None` when `text` is no JSON array.
pub uninterp spec fn json_item_texts(text: Seq<char>) -> Option<Seq<Seq<char>>>;

/// The compact JSON text of the object whose string fields are `entries`
/// (`serde_json`'s map: keys in its order, a repeated key keeps its last value).
pub uninterp spec fn json_string_object(entries: Seq<(Seq<char>, Seq<char>)>) -> Seq<char>;

pub open spec fn pair_views(v: Seq<(String, String)>) -> Seq<(Seq<char>, Seq<char>)> {
    v.map_values(|e: (String, String)| (e.0@, e.1@))
}

pub open spec fn entries_view(v: Seq<(String, Option<String>)>) -> Seq<(Seq<char>, Option<Seq<char>>)> {
    v.map_values(|e: (String, Option<String>)| (e.0@, opt_view(e.1)))
}

pub open spec fn opt_entries_view(o: Option<Vec<(String, Option<String>)>>) -> Option<Seq<(Seq<char>, Option<Seq<char>>)>> {
    match o {
        Some(v) => Some(entries_view(v@)),
        None => None,
    }
}

pub open spec fn opt_items_view(o: Option<Vec<Option<String>>>) -> Option<Seq<Option<Seq<char>>>> {
    match o {
        Some(v) => Some(v@.map_values(|x: Option<String>| opt_view(x))),
        None => None,
    }
}

/// `serde_json::from_str` then `Value::get`: is `key` a key of the object `text`?
#[verifier::external_body]
fn json_key_present(text: &str, key: &str) -> (r: bool)
    ensures
        r == json_has_key(text@, key@),
{
    match serde_json::from_str::<serde_json::Value>(text) {
        Ok(v) => v.get(key).is_some(),
        Err(_) => false,
    }
}

/// `serde_json::from_str`, `Value::get` and `Value::as_str`.
#[verifier::external_body]
fn json_str_field(text: &str, key: &str) -> (r: Option<String>)
    ensures
        opt_view(r) == json_str_at(text@, key@),
{
    let v = serde_json::from_str::<serde_json::Value>(text).ok()?;
    v.get(key).and_then(|x| x.as_str()).map(String::from)
}

/// `serde_json::from_str`, `Value::get` and `Value::as_u64`.
#[verifier::external_body]
fn json_u64_field(text: &str, key: &str) -> (r: Option<u64>)
    ensures
        r == json_u64_at(text@, key@),
{
    let v = serde_json::from_str::<serde_json::Value>(text).ok()?;
    v.get(key).and_then(|x| x.as_u64())
}

/// `serde_json::from_str`, `Value::get`, `Value::as_array` and `Value::as_str` on each item.
#[verifier::external_body]
fn json_str_items(text: &str, key: &str) -> (r: Option<Vec<Option<String>>>)
    ensures
        opt_items_view(r) == json_items_at(text@, key@),
{
    let v = serde_json::from_str::<serde_json::Value>(text).ok()?;
    let a = v.get(key).and_then(|x| x.as_array())?;
    Some(a.iter().map(|x| x.as_str().map(String::from)).collect())
}

/// `serde_json::from_str`, `Value::get`, `Value::as_object` and `Value::as_str` on
/// each value.
#[verifier::external_body]
fn json_object_entries_at(text: &str, key: &str) -> (r: Option<Vec<(String, Option<String>)>>)
    ensures
        opt_entries_view(r) == json_entries_at(text@, key@),
{
    let v = serde_json::from_str::<serde_json::Value>(text).ok()?;
    let m = v.get(key).and_then(|x| x.as_object())?;
    Some(m.iter().map(|(k, x)| (k.clone(), x.as_str().map(String::from))).collect())
}

/// `serde_json::from_str`, `Value::as_object` and `Value::as_str` on each value.
#[verifier::external_body]
fn json_object_entries(text: &str) -> (r: Option<Vec<(String, Option<String>)>>)
    ensures
        opt_entries_view(r) == json_entries(text@),
{
    let v = serde_json::from_str::<serde_json::Value>(text).ok()?;
    let m = v.as_object()?;
    Some(m.iter().map(|(k, x)| (k.clone(), x.as_str().map(String::from))).collect())
}

/// `serde_json::from_str` and `Value::get`, the value written back with its `Display`.
#[verifier::external_body]
fn json_value_text(text: &str, key: &str) -> (r: Option<String>)
    ensures
        opt_view(r) == json_value_text_at(text@, key@),
{
    let v = serde_json::from_str::<serde_json::Value>(text).ok()?;
    v.get(key).map(|x| x.to_string())
}

/// `serde_json::from_str`, `Value::get` and `Value::as_object`; each value of the
/// object reached taken apart by its variant (a number written with its `Display`).
#[verifier::external_body]
fn json_setting_entries(text: &str, key: &str) -> (r: Option<Vec<(String, PayloadValue)>>)
    ensures
        match r {
            Some(v) => json_setting_entries_at(text@, key@) == Some(payload_entries_view(v@)),
            None => json_setting_entries_at(text@, key@) is None,
        },
{
    let v = serde_json::from_str::<serde_json::Value>(text).ok()?;
    let m = v.get(key)?.as_object()?;
    Some(m.iter().map(|(k, x)| (k.clone(), match x {
        serde_json::Value::Null => PayloadValue::Null,
        serde_json::Value::Bool(b) => PayloadValue::Bool(*b),
        serde_json::Value::Number(n) => PayloadValue::Number(n.to_string()),
        serde_json::Value::String(s) => PayloadValue::Text(s.clone()),
        serde_json::Value::Array(_) => PayloadValue::Array,
        serde_json::Value::Object(_) => PayloadValue::Object,
    })).collect())
}

/// `serde_json::from_str`: does `text` parse?
#[verifier::external_body]
fn json_is_valid(text: &str) -> (r: bool)
    ensures
        r == json_parses(text@),
{
    serde_json::from_str::<serde_json::Value>(text).is_ok()
}


/// `serde_json::from_str::<Vec<Value>>`, then each item written back with its
/// `Display`.
#[verifier::external_body]
fn json_array_item_texts(text: &str) -> (r: Option<Vec<String>>)
    ensures
        match r {
            Some(v) => json_item_texts(text@) == Some(crate::text::string_views(v@)),
            None => json_item_texts(text@) is None,
        },
{
    let items = serde_json::from_str::<Vec<serde_json::Value>>(text).ok()?;
    Some(items.iter().map(|v| v.to_string()).collect())
}

/// A `serde_json::Map` of string values, written as a `Value::Object` with its
/// `Display`.
#[verifier::external_body]
fn string_object_text(entries: &Vec<(String, String)>) -> (r: String)
    ensures
        r@ == json_string_object(pair_views(entries@)),
{
    let m: serde_json::Map<String, serde_json::Value> =
        entries.iter().map(|(k, v)| (k.clone(), serde_json::Value::String(v.clone()))).collect();
    serde_json::Value::Object(m).to_string()
}

/// The first of `keys` that the JSON object `text` has.
pub open spec fn first_present(text: Seq<char>, keys: Seq<&str>) -> Option<Seq<char>>
    decreases keys.len(),
{
    if keys.len() == 0 {
        None
    } else if json_has_key(text, keys[0]@) {
        Some(keys[0]@)
    } else {
        first_present(text, keys.drop_first())
    }
}

/// The unsigned integer under the first present of `keys` (`None` when that value
/// is no such integer, or none is present).
pub open spec fn u64_under(text: Seq<char>, keys: Seq<&str>) -> Option<u64> {
    match first_present(text, keys) {
        Some(k) => json_u64_at(text, k),
        None => None,
    }
}

/// The string under the first present of `keys`.
pub open spec fn str_under(text: Seq<char>, keys: Seq<&str>) -> Option<Seq<char>> {
    match first_present(text, keys) {
        Some(k) => json_str_at(text, k),
        None => None,
    }
}

/// The array items under the first present of `keys`.
pub open spec fn items_under(text: Seq<char>, keys: Seq<&str>) -> Option<Seq<Option<Seq<char>>>> {
    match first_present(text, keys) {
        Some(k) => json_items_at(text, k),
        None => None,
    }
}

/// The strings among array items, in order.
pub open spec fn item_strings(items: Seq<Option<Seq<char>>>) -> Seq<Seq<char>>
    decreases items.len(),
{
    if items.len() == 0 {
        Seq::empty()
    } else {
        let rest = item_strings(items.drop_last());
        match items.last() {
            Some(s) => rest.push(s),
            None => rest,
        }
    }
}

/// The strings of an optional item list (none when there is no list).
pub open spec fn opt_item_strings(items: Option<Seq<Option<Seq<char>>>>) -> Seq<Seq<char>> {
    match items {
        Some(v) => item_strings(v),
        None => Seq::empty(),
    }
}

/// The first item of an optional list, when it is a string.
pub open spec fn first_item_string(items: Option<Seq<Option<Seq<char>>>>) -> Option<Seq<char>> {
    match items {
        Some(v) => if v.len() > 0 { v[0] } else { None },
        None => None,
    }
}

/// The first of `keys` that the JSON object `text` has.
pub fn first_present_key(text: &str, keys: &[&'static str]) -> (r: Option<&'static str>)
    ensures
        crate::text::opt_str_view(r) == first_present(text@, keys@),
{
    let mut i: usize = 0;
    assert(keys@.subrange(0, keys@.len() as int) =~= keys@);
    while i < keys.len()
        invariant
            i <= keys@.len(),
            first_present(text@, keys@) == first_present(text@, keys@.subrange(i as int, keys@.len() as int)),
        decreases keys.len() - i,
    {
        let ghost rest = keys@.subrange(i as int, keys@.len() as int);
        assert(rest[0] == keys@[i as int]);
        assert(rest.drop_first() =~= keys@.subrange(i + 1, keys@.len() as int));
        if json_key_present(text, keys[i]) {
            return Some(keys[i]);
        }
        i = i + 1;
    }
    assert(keys@.subrange(i as int, keys@.len() as int).len() == 0);
    None
}

/// The unsigned integer under the first present of `keys` in the JSON object `text`.
pub fn u64_under_keys(text: &str, keys: &[&'static str]) -> (r: Option<u64>)
    ensures
        r == u64_under(text@, keys@),
{
    match first_present_key(text, keys) {
        Some(k) => json_u64_field(text, k),
        None => None,
    }
}

/// The string under the first present of `keys` in the JSON object `text`.
pub fn str_under_keys(text: &str, keys: &[&'static str]) -> (r: Option<String>)
    ensures
        opt_view(r) == str_under(text@, keys@),
{
    match first_present_key(text, keys) {
        Some(k) => json_str_field(text, k),
        None => None,
    }
}

/// The array items under the first present of `keys` in the JSON object `text`.
pub fn items_under_keys(text: &str, keys: &[&'static str]) -> (r: Option<Vec<Option<String>>>)
    ensures
        opt_items_view(r) == items_under(text@, keys@),
{
    match first_present_key(text, keys) {
        Some(k) => json_str_items(text, k),
        None => None,
    }
}

/// The string at `key` of the JSON object `text`.
pub fn str_at(text: &str, key: &str) -> (r: Option<String>)
    ensures
        opt_view(r) == json_str_at(text@, key@),
{
    json_str_field(text, key)
}

/// The unsigned integer at `key` of the JSON object `text`.
pub fn u64_at(text: &str, key: &str) -> (r: Option<u64>)
    ensures
        r == json_u64_at(text@, key@),
{
    json_u64_field(text, key)
}

/// The array items at `key` of the JSON object `text`.
pub fn items_at(text: &str, key: &str) -> (r: Option<Vec<Option<String>>>)
    ensures
        opt_items_view(r) == json_items_at(text@, key@),
{
    json_str_items(text, key)
}

/// The settings entries of the object at `key` of the JSON object `text`.
pub fn setting_entries_at(text: &str, key: &str) -> (r: Option<Vec<(String, PayloadValue)>>)
    ensures
        match r {
            Some(v) => json_setting_entries_at(text@, key@) == Some(payload_entries_view(v@)),
            None => json_setting_entries_at(text@, key@) is None,
        },
{
    json_setting_entries(text, key)
}

/// The value at `key` of the JSON object `text`, as JSON text.
pub fn value_text_at(text: &str, key: &str) -> (r: Option<String>)
    ensures
        opt_view(r) == json_value_text_at(text@, key@),
{
    json_value_text(text, key)
}

/// Is `key` a key of the JSON object `text`?
pub fn has_key(text: &str, key: &str) -> (r: bool)
    ensures
        r == json_has_key(text@, key@),
{
    json_key_present(text, key)
}

/// Does `text` parse as JSON?
pub fn parses(text: &str) -> (r: bool)
    ensures
        r == json_parses(text@),
{
    json_is_valid(text)
}

/// The entries of the object at `key` of the JSON object `text`.
pub fn entries_at(text: &str, key: &str) -> (r: Option<Vec<(String, Option<String>)>>)
    ensures
        opt_entries_view(r) == json_entries_at(text@, key@),
{
    json_object_entries_at(text, key)
}

/// The entries of the JSON object `text`.
pub fn entries_of(text: &str) -> (r: Option<Vec<(String, Option<String>)>>)
    ensures
        opt_entries_view(r) == json_entries(text@),
{
    json_object_entries(text)
}

/// The strings among optional array items, in order.
pub fn strings_of_items(items: Option<Vec<Option<String>>>) -> (r: Vec<String>)
    ensures
        crate::text::string_views(r@) == opt_item_strings(opt_items_view(items)),
{
    let mut out: Vec<String> = Vec::new();
    match items {
        None => {
            assert(crate::text::string_views(out@) =~= Seq::<Seq<char>>::empty());
            out
        },
        Some(v) => {
            let ghost vv = v@.map_values(|x: Option<String>| opt_view(x));
            let mut i: usize = 0;
            while i < v.len()
                invariant
                    i <= v@.len(),
                    vv == v@.map_values(|x: Option<String>| opt_view(x)),
                    crate::text::string_views(out@) == item_strings(vv.subrange(0, i as int)),
                decreases v.len() - i,
            {
                assert(vv.subrange(0, i + 1).drop_last() =~= vv.subrange(0, i as int));
                match &v[i] {
                    Some(s) => {
                        out.push(s.clone());
                        assert(crate::text::string_views(out@) =~= item_strings(vv.subrange(0, i as int)).push(s@));
                    },
                    None => {},
                }
                i = i + 1;
            }
            assert(vv.subrange(0, v@.len() as int) =~= vv);
            out
        },
    }
}

/// The first of optional array items, when it is a string.
pub fn first_string_item(items: Option<Vec<Option<String>>>) -> (r: Option<String>)
    ensures
        opt_view(r) == first_item_string(opt_items_view(items)),
{
    match items {
        Some(v) => if v.len() > 0 { v[0].clone() } else { None },
        None => None,
    }
}

/// The compact JSON text of the object with these string fields.
pub fn object_of_strings(entries: &Vec<(String, String)>) -> (r: String)
    ensures
        r@ == json_string_object(pair_views(entries@)),
{
    string_object_text(entries)
}

/// A chat prompt as its messages, each the JSON text of one message object: the
/// items of a JSON array prompt as they are, else one `user` message holding the
/// whole prompt.
pub open spec fn parsed_messages(prompt: Seq<char>) -> Seq<Seq<char>> {
    match json_item_texts(prompt) {
        Some(items) => items,
        None => seq![json_string_object(seq![("role"@, "user"@), ("content"@, prompt)])],
    }
}

/// The messages of a chat prompt, each as the JSON text of a message object: a
/// JSON array prompt gives its items, any other prompt one `user` message with
/// the prompt as `content`.
pub fn parse_messages(prompt: &str) -> (r: Vec<String>)
    ensures
        crate::text::string_views(r@) == parsed_messages(prompt@),
{
    match json_array_item_texts(prompt) {
        Some(items) => items,
        None => {
            let fields = vec![("role".to_owned(), "user".to_owned()), ("content".to_owned(), prompt.to_owned())];
            assert(pair_views(fields@) =~= seq![("role"@, "user"@), ("content"@, prompt@)]);
            let r = vec![string_object_text(&fields)];
            assert(crate::text::string_views(r@) =~= parsed_messages(prompt@));
            r
        },
    }
}

} // verus!
