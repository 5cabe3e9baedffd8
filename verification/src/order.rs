//! String order (code point by code point, as `String`'s `Ord` compares UTF-8 bytes)
//! and sorting of string lists by it.
use vstd::prelude::*;
use vstd::relations::{sorted_by, total_ordering};
use crate::text::{chars_of, string_views};

verus! {

/// `a` comes before `b` or equals it, comparing code points from the front; a proper
/// prefix comes first.
pub open spec fn lex_le(a: Seq<char>, b: Seq<char>) -> bool
    decreases a.len(),
{
    if a.len() == 0 {
        true
    } else if b.len() == 0 {
        false
    } else if a[0] != b[0] {
        a[0] < b[0]
    } else {
        lex_le(a.drop_first(), b.drop_first())
    }
}

/// `lex_le` as a relation.
pub open spec fn lex_leq() -> spec_fn(Seq<char>, Seq<char>) -> bool {
    |a: Seq<char>, b: Seq<char>| lex_le(a, b)
}

proof fn lemma_lex_reflexive(a: Seq<char>)
    ensures
        lex_le(a, a),
    decreases a.len(),
{
    if a.len() > 0 {
        lemma_lex_reflexive(a.drop_first());
    }
}

proof fn lemma_lex_antisymmetric(a: Seq<char>, b: Seq<char>)
    requires
        lex_le(a, b),
        lex_le(b, a),
    ensures
        a == b,
    decreases a.len(),
{
    if a.len() > 0 && b.len() > 0 {
        lemma_lex_antisymmetric(a.drop_first(), b.drop_first());
        assert(a =~= seq![a[0]] + a.drop_first());
        assert(b =~= seq![b[0]] + b.drop_first());
    } else {
        assert(a =~= b);
    }
}

proof fn lemma_lex_transitive(a: Seq<char>, b: Seq<char>, c: Seq<char>)
    requires
        lex_le(a, b),
        lex_le(b, c),
    ensures
        lex_le(a, c),
    decreases a.len(),
{
    if a.len() > 0 && b.len() > 0 && c.len() > 0 && a[0] == b[0] && b[0] == c[0] {
        lemma_lex_transitive(a.drop_first(), b.drop_first(), c.drop_first());
    }
}

proof fn lemma_lex_total(a: Seq<char>, b: Seq<char>)
    ensures
        lex_le(a, b) || lex_le(b, a),
    decreases a.len(),
{
    if a.len() > 0 && b.len() > 0 && a[0] == b[0] {
        lemma_lex_total(a.drop_first(), b.drop_first());
    }
}

/// The string order is a total order.
pub proof fn lemma_lex_total_ordering()
    ensures
        total_ordering(lex_leq()),
{
    assert forall|x: Seq<char>| #[trigger] lex_leq()(x, x) by {
        lemma_lex_reflexive(x);
    }
    assert forall|x: Seq<char>, y: Seq<char>| #[trigger] lex_leq()(x, y) && #[trigger] lex_leq()(y, x) implies x == y by {
        lemma_lex_antisymmetric(x, y);
    }
    assert forall|x: Seq<char>, y: Seq<char>, z: Seq<char>| #[trigger] lex_leq()(x, y) && #[trigger] lex_leq()(y, z) implies lex_leq()(x, z) by {
        lemma_lex_transitive(x, y, z);
    }
    assert forall|x: Seq<char>, y: Seq<char>| #[trigger] lex_leq()(x, y) || #[trigger] lex_leq()(y, x) by {
        lemma_lex_total(x, y);
    }
}

/// Does `a` come before `b` or equal it?
pub fn lex_le_chars(a: &[char], b: &[char]) -> (r: bool)
    ensures
        r == lex_le(a@, b@),
{
    let mut i: usize = 0;
    assert(a@.skip(0) =~= a@);
    assert(b@.skip(0) =~= b@);
    while i < a.len() && i < b.len() && a[i] == b[i]
        invariant
            i <= a@.len(),
            i <= b@.len(),
            lex_le(a@, b@) == lex_le(a@.skip(i as int), b@.skip(i as int)),
        decreases a.len() - i,
    {
        proof {
            assert(a@.skip(i as int).drop_first() =~= a@.skip(i + 1));
            assert(b@.skip(i as int).drop_first() =~= b@.skip(i + 1));
        }
        i = i + 1;
    }
    if i == a.len() {
        true
    } else if i == b.len() {
        false
    } else {
        assert(a@.skip(i as int)[0] == a@[i as int]);
        assert(b@.skip(i as int)[0] == b@[i as int]);
        a[i] < b[i]
    }
}

/// `strings` in string order (a stable insertion sort).
pub fn sort_strings(strings: Vec<String>) -> (r: Vec<String>)
    ensures
        string_views(r@) == string_views(strings@).sort_by(lex_leq()),
{
    proof {
        lemma_lex_total_ordering();
    }
    let ghost input = string_views(strings@);
    let mut out: Vec<String> = Vec::new();
    let mut i: usize = 0;
    assert(string_views(out@) =~= input.take(0));
    while i < strings.len()
        invariant
            i <= strings@.len(),
            input == string_views(strings@),
            total_ordering(lex_leq()),
            sorted_by(string_views(out@), lex_leq()),
            string_views(out@).to_multiset() == input.take(i as int).to_multiset(),
        decreases strings.len() - i,
    {
        let x = chars_of(strings[i].as_str());
        let mut p: usize = 0;
        loop
            invariant
                p <= out@.len(),
                x@ == strings@[i as int]@,
                forall|k: int| 0 <= k < p ==> lex_le(#[trigger] out@[k]@, x@),
            ensures
                p <= out@.len(),
                forall|k: int| 0 <= k < p ==> lex_le(#[trigger] out@[k]@, x@),
                p < out@.len() ==> !lex_le(out@[p as int]@, x@),
            decreases out.len() - p,
        {
            if p >= out.len() {
                break;
            }
            if !lex_le_chars(&chars_of(out[p].as_str()), &x) {
                break;
            }
            p = p + 1;
        }
        let ghost before = string_views(out@);
        out.insert(p, strings[i].clone());
        proof {
            let after = string_views(out@);
            assert(after =~= before.insert(p as int, x@));
            vstd::seq_lib::to_multiset_insert(before, p as int, x@);
            assert(input.take(i + 1) =~= input.take(i as int).push(x@));
            vstd::seq_lib::to_multiset_build(input.take(i as int), x@);
            if p < before.len() {
                lemma_lex_total(before[p as int], x@);
            }
            assert forall|a: int, b: int| 0 <= a < b < after.len() implies #[trigger] lex_leq()(after[a], after[b]) by {
                if b < p {
                    assert(after[a] == before[a] && after[b] == before[b]);
                    assert(lex_leq()(before[a], before[b]));
                } else if b == p {
                    assert(after[a] == before[a]);
                    assert(lex_le(out@[a]@, x@));
                } else if a < p {
                    assert(after[a] == before[a] && after[b] == before[b - 1]);
                    assert(lex_leq()(before[a], before[b - 1]));
                } else if a == p {
                    assert(after[a] == x@);
                    assert(after[b] == before[b - 1]);
                    assert(lex_le(x@, before[p as int]));
                    if p < b - 1 {
                        assert(lex_leq()(before[p as int], before[b - 1]));
                        lemma_lex_transitive(x@, before[p as int], before[b - 1]);
                    }
                } else {
                    assert(after[a] == before[a - 1] && after[b] == before[b - 1]);
                    assert(lex_leq()(before[a - 1], before[b - 1]));
                }
            }
        }
        i = i + 1;
    }
    proof {
        assert(input.take(input.len() as int) =~= input);
        input.lemma_sort_by_ensures(lex_leq());
        vstd::seq_lib::lemma_sorted_unique(string_views(out@), input.sort_by(lex_leq()), lex_leq());
    }
    out
}

} // verus!
