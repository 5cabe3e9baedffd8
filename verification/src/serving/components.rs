//! Component settings: how a component's kind and id locate its settings file,
//! which part of a skill file holds its settings, the schema and user values read
//! from the YAML, and the user settings document after an update.
use vstd::prelude::*;
use crate::text::{
    chars_of, concat_chars, concat_str, eq_str, find, find_str, has_prefix, slice_copy, starts_with,
    opt_view, string_of, trim_end_char, trim_end_char_chars,
};

verus! {

/// Component kind as used in paths: the given kind without trailing `s`.
pub fn component_kind(raw: &str) -> (r: String)
    ensures
        r@ == trim_end_char(raw@, 's'),
{
    let c = chars_of(raw);
    string_of(&trim_end_char_chars(&c, 's'))
}

/// Folder of a component kind: the kind with an `s`.
pub fn component_folder(kind: &str) -> (r: String)
    ensures
        r@ == kind@ + "s"@,
{
    let c = chars_of(kind);
    string_of(&concat_str(&c, "s"))
}

/// Settings file of a component kind: `SKILL.md` for skills, else
/// `manifest-<kind>.yaml`.
pub fn settings_file_name(kind: &str) -> (r: String)
    ensures
        r@ == (if kind@ == "skill"@ { "SKILL.md"@ } else { "manifest-"@ + kind@ + ".yaml"@ }),
{
    let c = chars_of(kind);
    if eq_str(&c, "skill") {
        "SKILL.md".to_owned()
    } else {
        let a = chars_of("manifest-");
        let b = concat_chars(&a, &c);
        string_of(&concat_str(&b, ".yaml"))
    }
}

/// The YAML part of a component file: for a skill file that opens with a
/// `---` line, the text up to the next `---` line (the whole file when none
/// follows); the whole file otherwise.
pub open spec fn settings_yaml_spec(is_skill: bool, content: Seq<char>) -> Seq<char> {
    if is_skill && starts_with(content, "---\n"@) {
        let rest = content.subrange(4, content.len() as int);
        match find(rest, "---\n"@) {
            Some(j) => rest.subrange(0, j),
            None => content,
        }
    } else {
        content
    }
}

pub fn settings_yaml(is_skill: bool, content: &str) -> (r: String)
    ensures
        r@ == settings_yaml_spec(is_skill, content@),
{
    let c = chars_of(content);
    proof {
        reveal_strlit("---\n");
    }
    if is_skill && has_prefix(&c, "---\n") {
        let rest = slice_copy(&c, 4, c.len());
        proof {
            crate::text::lemma_find(rest@, "---\n"@);
        }
        match find_str(&rest, "---\n") {
            Some(j) => string_of(&slice_copy(&rest, 0, j)),
            None => content.to_owned(),
        }
    } else {
        content.to_owned()
    }
}

/// A settings update names a kind and an id and carries a settings object.
pub fn settings_update_is_complete(kind: &str, id: &str, has_settings: bool) -> (r: bool)
    ensures
        r == (kind@.len() > 0 && id@.len() > 0 && has_settings),
{
    let k = chars_of(kind);
    let i = chars_of(id);
    k.len() > 0 && i.len() > 0 && has_settings
}


// ───────────────────────── settings schema and values ─────────────────────────

/// The entries whose key is a string and whose value has a JSON form, in order.
pub open spec fn string_entries(es: Seq<(Option<Seq<char>>, Option<Seq<char>>)>) -> Seq<(Seq<char>, Seq<char>)>
    decreases es.len(),
{
    if es.len() == 0 {
        Seq::empty()
    } else {
        let rest = string_entries(es.drop_last());
        match es.last() {
            (Some(k), Some(v)) => rest.push((k, v)),
            _ => rest,
        }
    }
}

pub open spec fn opt_string_entries(o: Option<Seq<(Option<Seq<char>>, Option<Seq<char>>)>>) -> Seq<(Seq<char>, Seq<char>)> {
    match o {
        Some(es) => string_entries(es),
        None => Seq::empty(),
    }
}

fn keep_string_entries(o: Option<Vec<(Option<String>, Option<String>)>>) -> (r: Vec<(String, String)>)
    ensures
        crate::json::pair_views(r@) == opt_string_entries(crate::yaml::opt_pair_views(o)),
{
    let mut out: Vec<(String, String)> = Vec::new();
    match o {
        None => {
            assert(crate::json::pair_views(out@) =~= Seq::<(Seq<char>, Seq<char>)>::empty());
            out
        },
        Some(v) => {
            let ghost vv = v@.map_values(|e: (Option<String>, Option<String>)| (opt_view(e.0), opt_view(e.1)));
            let mut i: usize = 0;
            while i < v.len()
                invariant
                    i <= v@.len(),
                    vv == v@.map_values(|e: (Option<String>, Option<String>)| (opt_view(e.0), opt_view(e.1))),
                    crate::json::pair_views(out@) == string_entries(vv.subrange(0, i as int)),
                decreases v.len() - i,
            {
                assert(vv.subrange(0, i + 1).drop_last() =~= vv.subrange(0, i as int));
                match &v[i] {
                    (Some(k), Some(x)) => {
                        out.push((k.clone(), x.clone()));
                        assert(crate::json::pair_views(out@) =~= string_entries(vv.subrange(0, i as int)).push((k@, x@)));
                    },
                    _ => {},
                }
                i = i + 1;
            }
            assert(vv.subrange(0, v@.len() as int) =~= vv);
            out
        },
    }
}

/// The settings of a component: the schema under `settings` in the YAML part of
/// its settings file, and the values the user set under the component's folder
/// name and id in `user_settings.yaml` (`None` when that file is missing or
/// unreadable).  Keys are strings; values are JSON text, and a value with no JSON
/// form is left out.
pub fn component_settings(
    component_type: &str,
    component_id: &str,
    settings_file_text: &str,
    user_settings_text: Option<&str>,
) -> (r: (Vec<(String, String)>, Vec<(String, String)>))
    ensures
        crate::json::pair_views(r.0@) == opt_string_entries(crate::yaml::yaml_json_entries_under(
            settings_yaml_spec(trim_end_char(component_type@, 's') == "skill"@, settings_file_text@),
            seq!["settings"@],
        )),
        crate::json::pair_views(r.1@) == (match user_settings_text {
            Some(t) => opt_string_entries(crate::yaml::yaml_json_entries_under(
                t@,
                seq![trim_end_char(component_type@, 's') + "s"@, component_id@],
            )),
            None => Seq::empty(),
        }),
{
    let kind = component_kind(component_type);
    let kc = chars_of(kind.as_str());
    let yaml_part = settings_yaml(eq_str(&kc, "skill"), settings_file_text);
    let schema_path = vec!["settings".to_owned()];
    proof {
        assert(crate::text::string_views(schema_path@) =~= seq!["settings"@]);
    }
    let schema = keep_string_entries(crate::yaml::json_entries_under(yaml_part.as_str(), &schema_path));
    let values = match user_settings_text {
        Some(t) => {
            let user_path = vec![component_folder(kind.as_str()), component_id.to_owned()];
            proof {
                assert(crate::text::string_views(user_path@) =~= seq![kind@ + "s"@, component_id@]);
            }
            keep_string_entries(crate::yaml::json_entries_under(t, &user_path))
        },
        None => {
            let v: Vec<(String, String)> = Vec::new();
            assert(crate::json::pair_views(v@) =~= Seq::<(Seq<char>, Seq<char>)>::empty());
            v
        },
    };
    (schema, values)
}


// ───────────────────────── settings updates ─────────────────────────

/// A settings value as a JSON request carries it; numbers are kept as their
/// JSON text.
pub enum PayloadValue {
    Null,
    Bool(bool),
    Number(String),
    Text(String),
    Array,
    Object,
}

pub enum PayloadView {
    Null,
    Bool(bool),
    Number(Seq<char>),
    Text(Seq<char>),
    Array,
    Object,
}

pub open spec fn payload_view(p: PayloadValue) -> PayloadView {
    match p {
        PayloadValue::Null => PayloadView::Null,
        PayloadValue::Bool(b) => PayloadView::Bool(b),
        PayloadValue::Number(n) => PayloadView::Number(n@),
        PayloadValue::Text(s) => PayloadView::Text(s@),
        PayloadValue::Array => PayloadView::Array,
        PayloadValue::Object => PayloadView::Object,
    }
}

pub open spec fn payload_entries_view(v: Seq<(String, PayloadValue)>) -> Seq<(Seq<char>, PayloadView)> {
    v.map_values(|e: (String, PayloadValue)| (e.0@, payload_view(e.1)))
}

/// The YAML text a setting is stored as: booleans and numbers as they are, a
/// string quoted as `serde_yaml` writes it, anything else (null, a list, an
/// object) as null.
pub open spec fn stored_yaml(p: PayloadView) -> Seq<char> {
    match p {
        PayloadView::Bool(b) => if b { "true"@ } else { "false"@ },
        PayloadView::Number(n) => n,
        PayloadView::Text(s) => crate::yaml::yaml_string_text(s),
        _ => "null"@,
    }
}

/// Keys whose values stay as they are.
pub open spec fn kept_keys(old: Seq<Seq<char>>) -> Seq<(Seq<char>, Option<Seq<char>>)> {
    old.map_values(|k: Seq<char>| (k, None::<Seq<char>>))
}

/// The user's settings of a component after an update: its old keys (values kept,
/// `None`), then each new setting in turn, replacing a key in place or appended.
pub open spec fn merged_settings(
    old: Seq<Seq<char>>,
    new: Seq<(Seq<char>, PayloadView)>,
) -> Seq<(Seq<char>, Option<Seq<char>>)>
    decreases new.len(),
{
    if new.len() == 0 {
        kept_keys(old)
    } else {
        crate::registry::registry_index::table_insert(
            merged_settings(old, new.drop_last()),
            new.last().0,
            Some(stored_yaml(new.last().1)),
        )
    }
}

/// The settings to write: the merged entries that carry a new value, in order.
pub open spec fn written_settings(m: Seq<(Seq<char>, Option<Seq<char>>)>) -> Seq<(Seq<char>, Seq<char>)>
    decreases m.len(),
{
    if m.len() == 0 {
        Seq::empty()
    } else {
        let rest = written_settings(m.drop_last());
        match m.last().1 {
            Some(v) => rest.push((m.last().0, v)),
            None => rest,
        }
    }
}

/// What a settings update asks: the component kind (trailing `s` dropped), its id,
/// and its settings (`None` when the request carries no settings object).
pub open spec fn update_request(payload: Seq<char>) -> (Seq<char>, Seq<char>, Option<Seq<(Seq<char>, PayloadView)>>) {
    (
        trim_end_char(crate::text::or_else(crate::json::json_str_at(payload, "component_type"@), Seq::empty()), 's'),
        crate::text::or_else(crate::json::json_str_at(payload, "component_id"@), Seq::empty()),
        crate::json::json_setting_entries_at(payload, "settings"@),
    )
}

/// The user settings document after the update request `payload`, from the text
/// of `user_settings.yaml` (`None` when it does not exist: an empty mapping then):
/// `None` when the request lacks a kind, an id or a settings object; otherwise the
/// document with the merged settings written under the kind's folder name and the
/// id.
pub open spec fn settings_update_spec(payload: Seq<char>, user_settings: Option<Seq<char>>) -> Option<Seq<char>> {
    let (kind, id, settings) = update_request(payload);
    match settings {
        Some(new) => if kind.len() > 0 && id.len() > 0 {
            let base = crate::text::or_else(user_settings, "{}"@);
            let old = crate::json::opt_item_strings(crate::yaml::yaml_keys_under(base, seq![kind + "s"@, id]));
            Some(crate::yaml::yaml_with_settings(base, kind + "s"@, id, written_settings(merged_settings(old, new))))
        } else {
            None
        },
        None => None,
    }
}

fn stored_yaml_of(p: &PayloadValue) -> (r: String)
    ensures
        r@ == stored_yaml(payload_view(*p)),
{
    match p {
        PayloadValue::Bool(b) => if *b { "true".to_owned() } else { "false".to_owned() },
        PayloadValue::Number(n) => n.clone(),
        PayloadValue::Text(s) => crate::yaml::string_text(s.as_str()),
        _ => "null".to_owned(),
    }
}

fn insert_setting(m: &mut Vec<(String, Option<String>)>, k: String, v: String)
    ensures
        crate::yaml::opt_value_pairs(final(m)@) == crate::registry::registry_index::table_insert(
            crate::yaml::opt_value_pairs(old(m)@),
            k@,
            Some(v@),
        ),
{
    let ghost s0 = crate::yaml::opt_value_pairs(m@);
    proof {
        crate::registry::registry_index::lemma_find_key(s0, k@);
    }
    let kc = chars_of(k.as_str());
    let mut i: usize = 0;
    while i < m.len()
        invariant
            i <= m@.len(),
            s0 == crate::yaml::opt_value_pairs(m@),
            m@ == old(m)@,
            kc@ == k@,
            forall|j: int| 0 <= j < i ==> s0[j].0 != k@,
        decreases m.len() - i,
    {
        let c = chars_of(m[i].0.as_str());
        proof {
            assert(s0[i as int].0 == m@[i as int].0@);
        }
        if crate::text::chars_eq(&c, &kc) {
            proof {
                crate::registry::registry_index::lemma_find_key(s0, k@);
                assert(crate::registry::registry_index::find_key(s0, k@) == Some(i as int));
            }
            let ghost kv = k@;
            let ghost vv = v@;
            m.set(i, (k, Some(v)));
            proof {
                assert(crate::yaml::opt_value_pairs(m@) =~= s0.update(i as int, (kv, Some(vv))));
            }
            return;
        }
        i = i + 1;
    }
    m.push((k, Some(v)));
    proof {
        assert(crate::yaml::opt_value_pairs(m@) =~= s0.push((k@, Some(v@))));
    }
}

/// The text of `user_settings.yaml` after a settings update (see
/// `settings_update_spec`); `None` when the request lacks a component kind, a
/// component id or a settings object.  `payload` is the request's JSON text.
pub fn settings_update(payload: &str, user_settings_text: Option<&str>) -> (r: Option<String>)
    ensures
        crate::text::opt_view(r) == settings_update_spec(payload@, crate::text::opt_str_view(user_settings_text)),
{
    let raw_type = match crate::json::str_at(payload, "component_type") {
        Some(t) => t,
        None => String::new(),
    };
    let kind = component_kind(raw_type.as_str());
    let id = match crate::json::str_at(payload, "component_id") {
        Some(t) => t,
        None => String::new(),
    };
    let new = match crate::json::setting_entries_at(payload, "settings") {
        Some(n) => n,
        None => return None,
    };
    if chars_of(kind.as_str()).len() == 0 || chars_of(id.as_str()).len() == 0 {
        return None;
    }
    let base: &str = match user_settings_text {
        Some(t) => t,
        None => "{}",
    };
    let folder = component_folder(kind.as_str());
    let path = vec![folder.clone(), id.clone()];
    proof {
        assert(crate::text::string_views(path@) =~= seq![kind@ + "s"@, id@]);
    }
    let old_keys = crate::json::strings_of_items(crate::yaml::keys_under(base, &path));
    let ghost nv = payload_entries_view(new@);
    let ghost old = crate::text::string_views(old_keys@);
    let mut merged: Vec<(String, Option<String>)> = Vec::new();
    let mut j: usize = 0;
    while j < old_keys.len()
        invariant
            j <= old_keys@.len(),
            old == crate::text::string_views(old_keys@),
            crate::yaml::opt_value_pairs(merged@) == kept_keys(old.subrange(0, j as int)),
        decreases old_keys.len() - j,
    {
        let key = old_keys[j].clone();
        let ghost before = merged@;
        merged.push((key, None));
        proof {
            assert(crate::yaml::opt_value_pairs(merged@) =~= crate::yaml::opt_value_pairs(before).push((old[j as int], None::<Seq<char>>)));
            assert(old[j as int] == old_keys@[j as int]@);
            assert(crate::yaml::opt_value_pairs(merged@) =~= kept_keys(old.subrange(0, j + 1)));
        }
        j = j + 1;
    }
    proof {
        assert(old.subrange(0, old.len() as int) =~= old);
        assert(nv.subrange(0, 0) =~= Seq::<(Seq<char>, PayloadView)>::empty());
    }
    let mut i: usize = 0;
    while i < new.len()
        invariant
            i <= new@.len(),
            nv == payload_entries_view(new@),
            crate::yaml::opt_value_pairs(merged@) == merged_settings(old, nv.subrange(0, i as int)),
        decreases new.len() - i,
    {
        let y = stored_yaml_of(&new[i].1);
        insert_setting(&mut merged, new[i].0.clone(), y);
        proof {
            let p = nv.subrange(0, i + 1);
            assert(p.drop_last() =~= nv.subrange(0, i as int));
            assert(p.last() == nv[i as int]);
        }
        i = i + 1;
    }
    proof {
        assert(nv.subrange(0, nv.len() as int) =~= nv);
    }
    let mut written: Vec<(String, String)> = Vec::new();
    let ghost mv = crate::yaml::opt_value_pairs(merged@);
    let mut k: usize = 0;
    while k < merged.len()
        invariant
            k <= merged@.len(),
            mv == crate::yaml::opt_value_pairs(merged@),
            crate::json::pair_views(written@) == written_settings(mv.subrange(0, k as int)),
        decreases merged.len() - k,
    {
        assert(mv.subrange(0, k + 1).drop_last() =~= mv.subrange(0, k as int));
        match &merged[k].1 {
            Some(v) => {
                written.push((merged[k].0.clone(), v.clone()));
                assert(crate::json::pair_views(written@) =~= written_settings(mv.subrange(0, k as int)).push(
                    (merged@[k as int].0@, v@),
                ));
            },
            None => {},
        }
        k = k + 1;
    }
    proof {
        assert(mv.subrange(0, mv.len() as int) =~= mv);
        reveal_strlit("{}");
    }
    Some(crate::yaml::store_settings(base, folder.as_str(), id.as_str(), &written))
}

} // verus!
