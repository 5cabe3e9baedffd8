//! Embeddings: model choice and the whitespace token count reported as usage.
use vstd::prelude::*;
use crate::serving::chat_flow::is_blank;
use crate::text::{chars_of, is_ws, is_ws_exec, string_views, trim_chars};

verus! {

/// Number of white-space separated words of `s` (`str::split_whitespace().count()`):
/// the positions where a word starts.
pub open spec fn word_count(s: Seq<char>) -> nat
    decreases s.len(),
{
    if s.len() == 0 {
        0
    } else {
        let starts_here: nat = if !is_ws(s.last()) && (s.len() == 1 || is_ws(s[s.len() - 2])) { 1 } else { 0 };
        word_count(s.drop_last()) + starts_here
    }
}

proof fn lemma_word_count_bound(s: Seq<char>)
    ensures
        word_count(s) <= s.len(),
    decreases s.len(),
{
    if s.len() > 0 {
        lemma_word_count_bound(s.drop_last());
    }
}

/// Total words over several texts.
pub open spec fn total_words(ts: Seq<Seq<char>>) -> nat
    decreases ts.len(),
{
    if ts.len() == 0 { 0 } else { total_words(ts.drop_last()) + word_count(ts.last()) }
}

/// Total length over several texts.
pub open spec fn total_len(ts: Seq<Seq<char>>) -> nat
    decreases ts.len(),
{
    if ts.len() == 0 { 0 } else { total_len(ts.drop_last()) + ts.last().len() }
}

proof fn lemma_total_words_bound(ts: Seq<Seq<char>>)
    ensures
        total_words(ts) <= total_len(ts),
    decreases ts.len(),
{
    if ts.len() > 0 {
        lemma_total_words_bound(ts.drop_last());
        lemma_word_count_bound(ts.last());
    }
}

/// Words of one text.
pub fn count_words(text: &str) -> (r: usize)
    ensures
        r == word_count(text@),
{
    let c = chars_of(text);
    let mut n: usize = 0;
    let mut i: usize = 0;
    while i < c.len()
        invariant
            i <= c@.len(),
            n == word_count(c@.subrange(0, i as int)),
            n <= i,
        decreases c.len() - i,
    {
        let ghost pre = c@.subrange(0, i as int);
        let ghost next = c@.subrange(0, i + 1);
        assert(next.drop_last() =~= pre);
        if !is_ws_exec(c[i]) && (i == 0 || is_ws_exec(c[i - 1])) {
            n = n + 1;
        }
        i = i + 1;
    }
    assert(c@.subrange(0, c@.len() as int) =~= c@);
    n
}

/// Words over all inputs: the usage an embeddings request reports.
pub fn total_word_count(inputs: &Vec<String>) -> (r: usize)
    requires
        total_len(string_views(inputs@)) <= usize::MAX,
    ensures
        r == total_words(string_views(inputs@)),
{
    let ghost g = string_views(inputs@);
    let mut total: usize = 0;
    let mut i: usize = 0;
    while i < inputs.len()
        invariant
            g == string_views(inputs@),
            total_len(g) <= usize::MAX,
            i <= inputs@.len(),
            total == total_words(g.subrange(0, i as int)),
        decreases inputs.len() - i,
    {
        let ghost pre = g.subrange(0, i as int);
        let ghost next = g.subrange(0, i + 1);
        assert(next.drop_last() =~= pre);
        assert(next.last() == inputs@[i as int]@);
        proof {
            lemma_total_words_bound(next);
            lemma_total_len_prefix(g, i + 1);
        }
        let w = count_words(inputs[i].as_str());
        total = total + w;
        i = i + 1;
    }
    assert(g.subrange(0, inputs@.len() as int) =~= g);
    total
}

proof fn lemma_total_len_prefix(ts: Seq<Seq<char>>, k: int)
    requires
        0 <= k <= ts.len(),
    ensures
        total_len(ts.subrange(0, k)) <= total_len(ts),
    decreases ts.len(),
{
    if k < ts.len() {
        assert(ts.drop_last().subrange(0, k) =~= ts.subrange(0, k));
        lemma_total_len_prefix(ts.drop_last(), k);
    } else {
        assert(ts.subrange(0, k) =~= ts);
    }
}

/// The model an embeddings request runs, as (path, name): the request's model
/// when it is given, not blank, and resolves; else the embedding slot's model
/// when it is set and not blank and has a path; else none.
pub fn choose_embedding_model(
    requested: Option<&str>,
    requested_path: Option<String>,
    slot_model: Option<&str>,
    slot_path: Option<String>,
) -> (r: Option<(String, String)>)
    ensures
        match (requested, requested_path) {
            (Some(m), Some(p)) if !is_blank(m@) => r matches Some((path, name)) && path@ == p@ && name@ == m@,
            _ => match (slot_model, slot_path) {
                (Some(id), Some(p)) if !is_blank(id@) => r matches Some((path, name)) && path@ == p@ && name@ == id@,
                _ => r is None,
            },
        },
{
    if let Some(m) = requested {
        let mc = chars_of(m);
        if trim_chars(&mc).len() > 0 {
            if let Some(p) = requested_path {
                return Some((p, m.to_owned()));
            }
        }
    }
    if let Some(id) = slot_model {
        let ic = chars_of(id);
        if trim_chars(&ic).len() > 0 {
            if let Some(p) = slot_path {
                return Some((p, id.to_owned()));
            }
        }
    }
    None
}

} // verus!
