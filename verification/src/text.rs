//! Character-sequence model of the string operations the classifiers use:
//! prefix / suffix / substring tests, first occurrence, replacement,
//! splitting, trimming, and decimal parsing.  Every operation is stated over
//! `Seq<char>` (the view of `&str` and `String`).
use std::path::Path;
use vstd::prelude::*;

verus! {

// ───────────────────────── specifications ─────────────────────────

/// `p` is a prefix of `s`.
pub open spec fn starts_with(s: Seq<char>, p: Seq<char>) -> bool {
    p.len() <= s.len() && s.subrange(0, p.len() as int) == p
}

/// `p` is a suffix of `s`.
pub open spec fn ends_with(s: Seq<char>, p: Seq<char>) -> bool {
    p.len() <= s.len() && s.subrange(s.len() - p.len(), s.len() as int) == p
}

/// `p` occurs in `s` starting at position `i`.
pub open spec fn occurs_at(s: Seq<char>, p: Seq<char>, i: int) -> bool {
    0 <= i && i + p.len() <= s.len() && s.subrange(i, i + p.len()) == p
}

/// `p` occurs somewhere in `s`.
pub open spec fn contains(s: Seq<char>, p: Seq<char>) -> bool {
    exists|i: int| occurs_at(s, p, i)
}

/// First position at or after `i` where `p` occurs in `s`.
pub open spec fn find_from(s: Seq<char>, p: Seq<char>, i: int) -> Option<int>
    decreases s.len() + 1 - i,
{
    if i < 0 || i + p.len() > s.len() {
        None
    } else if occurs_at(s, p, i) {
        Some(i)
    } else {
        find_from(s, p, i + 1)
    }
}

/// First position where `p` occurs in `s` (`str::find`).
pub open spec fn find(s: Seq<char>, p: Seq<char>) -> Option<int> {
    find_from(s, p, 0)
}

/// Some word of `pats` occurs in `s`.
pub open spec fn contains_any(s: Seq<char>, pats: Seq<&str>) -> bool {
    exists|k: int| 0 <= k < pats.len() && contains(s, #[trigger] pats[k]@)
}

/// `s` equals some word of `pats`.
pub open spec fn equals_any(s: Seq<char>, pats: Seq<&str>) -> bool {
    exists|k: int| 0 <= k < pats.len() && s == #[trigger] pats[k]@
}

/// `s` ends with some word of `pats`.
pub open spec fn ends_with_any(s: Seq<char>, pats: Seq<&str>) -> bool {
    exists|k: int| 0 <= k < pats.len() && ends_with(s, #[trigger] pats[k]@)
}

/// Every occurrence of the character `from` replaced by `to`.
pub open spec fn replace_char(s: Seq<char>, from: char, to: char) -> Seq<char> {
    s.map_values(|c: char| if c == from { to } else { c })
}

/// Left-to-right, non-overlapping replacement of the non-empty pattern `from` by `to`
/// (`str::replace`).
pub open spec fn replace_all(s: Seq<char>, from: Seq<char>, to: Seq<char>) -> Seq<char>
    decreases s.len(),
{
    if from.len() == 0 {
        s
    } else {
        match find(s, from) {
            None => s,
            Some(i) => {
                if 0 <= i && i + from.len() <= s.len() {
                    s.subrange(0, i) + to + replace_all(
                        s.subrange(i + from.len(), s.len() as int),
                        from,
                        to,
                    )
                } else {
                    s
                }
            },
        }
    }
}

/// The Unicode `White_Space` characters (`char::is_whitespace`).
pub open spec fn is_ws(c: char) -> bool {
    ||| '\u{9}' <= c <= '\u{d}'
    ||| c == ' '
    ||| c == '\u{85}'
    ||| c == '\u{a0}'
    ||| c == '\u{1680}'
    ||| '\u{2000}' <= c <= '\u{200a}'
    ||| c == '\u{2028}'
    ||| c == '\u{2029}'
    ||| c == '\u{202f}'
    ||| c == '\u{205f}'
    ||| c == '\u{3000}'
}

/// Number of leading white-space characters of `s`.
pub open spec fn lead_ws(s: Seq<char>) -> nat
    decreases s.len(),
{
    if s.len() > 0 && is_ws(s[0]) {
        1 + lead_ws(s.subrange(1, s.len() as int))
    } else {
        0
    }
}

/// Number of trailing white-space characters of `s`.
pub open spec fn trail_ws(s: Seq<char>) -> nat
    decreases s.len(),
{
    if s.len() > 0 && is_ws(s.last()) {
        1 + trail_ws(s.drop_last())
    } else {
        0
    }
}

/// `s` without leading and trailing white space (`str::trim`).
pub open spec fn trim(s: Seq<char>) -> Seq<char> {
    let t = s.subrange(0, s.len() - trail_ws(s));
    t.subrange(lead_ws(t) as int, t.len() as int)
}

/// `s` with every trailing `c` removed (`str::trim_end_matches` with a character).
pub open spec fn trim_end_char(s: Seq<char>, c: char) -> Seq<char>
    decreases s.len(),
{
    if s.len() > 0 && s.last() == c {
        trim_end_char(s.drop_last(), c)
    } else {
        s
    }
}

/// The pieces of `s` between occurrences of the separator characters (`str::split`).
pub open spec fn split_on(s: Seq<char>, seps: Seq<char>) -> Seq<Seq<char>>
    decreases s.len(),
{
    if s.len() == 0 {
        seq![Seq::<char>::empty()]
    } else {
        let rest = split_on(s.drop_last(), seps);
        if seps.contains(s.last()) {
            rest.push(Seq::<char>::empty())
        } else {
            rest.update(rest.len() - 1, rest.last().push(s.last()))
        }
    }
}

/// Digit value of an ASCII decimal digit.
pub open spec fn digit_value(c: char) -> int {
    c as int - '0' as int
}

pub open spec fn is_digit(c: char) -> bool {
    '0' <= c <= '9'
}

/// Value of a non-empty run of decimal digits.
pub open spec fn digits_value(s: Seq<char>) -> int
    decreases s.len(),
{
    if s.len() == 0 {
        0
    } else {
        digits_value(s.drop_last()) * 10 + digit_value(s.last())
    }
}

pub open spec fn all_digits(s: Seq<char>) -> bool {
    forall|i: int| 0 <= i < s.len() ==> is_digit(#[trigger] s[i])
}

/// `s` without a leading `+`.
pub open spec fn unsigned_digits(s: Seq<char>) -> Seq<char> {
    if s.len() > 0 && s[0] == '+' {
        s.subrange(1, s.len() as int)
    } else {
        s
    }
}

/// `str::parse::<usize>`: an optional `+`, then one or more decimal digits, of a value
/// that fits in `usize`.
pub open spec fn parse_usize(s: Seq<char>) -> Option<usize> {
    let d = unsigned_digits(s);
    if d.len() > 0 && all_digits(d) && digits_value(d) <= usize::MAX {
        Some(digits_value(d) as usize)
    } else {
        None
    }
}

/// `str::parse::<u64>`: an optional `+`, then one or more decimal digits, of a value
/// that fits in `u64`.
pub open spec fn parse_u64(s: Seq<char>) -> Option<u64> {
    let d = unsigned_digits(s);
    if d.len() > 0 && all_digits(d) && digits_value(d) <= u64::MAX {
        Some(digits_value(d) as u64)
    } else {
        None
    }
}

/// Views of a sequence of string slices.
pub open spec fn views(v: Seq<&str>) -> Seq<Seq<char>> {
    v.map_values(|s: &str| s@)
}

/// Views of a sequence of strings.
pub open spec fn string_views(v: Seq<String>) -> Seq<Seq<char>> {
    v.map_values(|s: String| s@)
}

/// What `str::to_lowercase` returns (Unicode lower-case mapping of every character).
pub uninterp spec fn lowercase(s: Seq<char>) -> Seq<char>;

/// Is every character of `s` ASCII?
pub open spec fn is_ascii_text(s: Seq<char>) -> bool {
    forall|i: int| 0 <= i < s.len() ==> (#[trigger] s[i] as u32) < 128
}

/// ASCII lower-casing of one character: `A`..`Z` to `a`..`z`, any other kept.
pub open spec fn ascii_lower_char(c: char) -> char {
    if 'A' <= c && c <= 'Z' { ((c as u32) + 32) as char } else { c }
}

/// ASCII lower-casing of every character.
pub open spec fn ascii_lower(s: Seq<char>) -> Seq<char> {
    s.map_values(|c: char| ascii_lower_char(c))
}

/// ASCII upper-casing of one character: `a`..`z` to `A`..`Z`, any other kept.
pub open spec fn ascii_upper_char(c: char) -> char {
    if 'a' <= c && c <= 'z' { ((c as u32) - 32) as char } else { c }
}

/// ASCII upper-casing of every character.
pub open spec fn ascii_upper(s: Seq<char>) -> Seq<char> {
    s.map_values(|c: char| ascii_upper_char(c))
}

/// The part of `s` from position `k` on.
pub open spec fn tail_from(s: Seq<char>, k: int) -> Seq<char> {
    s.subrange(k, s.len() as int)
}

/// Lower-casing `s` ends with every ASCII tail of `s`, ASCII lower-cased.
pub open spec fn keeps_ascii_tails(s: Seq<char>, lowered: Seq<char>) -> bool {
    forall|k: int| 0 <= k <= s.len() && is_ascii_text(#[trigger] tail_from(s, k))
        ==> ends_with(lowered, ascii_lower(tail_from(s, k)))
}

/// No position of `s` where `p` could start holds `p`'s first character, so `p`
/// does not occur in `s`.
pub proof fn lemma_first_char_absent(s: Seq<char>, p: Seq<char>)
    requires
        p.len() > 0,
        forall|i: int| 0 <= i && i + p.len() <= s.len() ==> s[i] != p[0],
    ensures
        !contains(s, p),
{
    assert forall|i: int| !occurs_at(s, p, i) by {
        if occurs_at(s, p, i) {
            assert(s.subrange(i, i + p.len())[0] == s[i]);
        }
    }
}

/// What `str::to_uppercase` returns (Unicode upper-case mapping of every character).
pub uninterp spec fn uppercase(s: Seq<char>) -> Seq<char>;

/// What `Path::file_name` returns for the path `p`.
pub uninterp spec fn path_file_name(p: Seq<char>) -> Option<Seq<char>>;

/// What `Path::file_stem` returns for the path `p`.
pub uninterp spec fn path_file_stem(p: Seq<char>) -> Option<Seq<char>>;

/// What `Path::parent` returns for the path `p`.
pub uninterp spec fn path_parent(p: Seq<char>) -> Option<Seq<char>>;

/// What `Path::extension` returns for the path `p`.
pub uninterp spec fn path_extension(p: Seq<char>) -> Option<Seq<char>>;

/// `opt.unwrap_or(default)` on views.
pub open spec fn or_else(opt: Option<Seq<char>>, default: Seq<char>) -> Seq<char> {
    match opt {
        Some(x) => x,
        None => default,
    }
}

// ───────────────────────── outside (std) calls ─────────────────────────

/// `String::push`: appends one character.
#[verifier::external_body]
pub(crate) fn push_char(s: &mut String, c: char)
    ensures
        final(s)@ == old(s)@.push(c),
{
    s.push(c);
}

/// `str::to_lowercase`; the result is named `lowercase`.  As std documents, it maps
/// each character to its lower-case form in turn, and on ASCII characters that
/// form maps `A`..`Z` to `a`..`z` and keeps every other character: so ASCII text is
/// ASCII lower-cased, and an ASCII tail of any text ends the result lower-cased.
#[verifier::external_body]
pub(crate) fn to_lower(s: &str) -> (r: String)
    ensures
        r@ == lowercase(s@),
        is_ascii_text(s@) ==> r@ == ascii_lower(s@),
        keeps_ascii_tails(s@, r@),
{
    s.to_lowercase()
}

/// `str::to_uppercase`; the result is named `uppercase`.  As std documents, on
/// ASCII text it maps `a`..`z` to `A`..`Z` and keeps every other character.
#[verifier::external_body]
pub(crate) fn to_upper(s: &str) -> (r: String)
    ensures
        r@ == uppercase(s@),
        is_ascii_text(s@) ==> r@ == ascii_upper(s@),
{
    s.to_uppercase()
}

/// A single plain path component: not empty, no separator or drive colon, not `.`
/// or `..`.
pub open spec fn is_plain_name(p: Seq<char>) -> bool {
    p.len() > 0 && !p.contains('/') && !p.contains('\\') && !p.contains(':') && p != "."@ && p != ".."@
}

/// Position of the last `.` in `p`.
pub open spec fn last_dot(p: Seq<char>) -> Option<int>
    decreases p.len(),
{
    if p.len() == 0 {
        None
    } else if p.last() == '.' {
        Some(p.len() - 1)
    } else {
        last_dot(p.drop_last())
    }
}

/// The stem of a plain name: the part before its final `.`, or the whole name
/// when it has no `.` but possibly a leading one.
pub open spec fn plain_stem(p: Seq<char>) -> Seq<char> {
    match last_dot(p) {
        Some(i) => if i > 0 { p.subrange(0, i) } else { p },
        None => p,
    }
}

/// The extension of a plain name: the part after its final `.`, none when it has
/// no `.` but possibly a leading one.
pub open spec fn plain_extension(p: Seq<char>) -> Option<Seq<char>> {
    match last_dot(p) {
        Some(i) => if i > 0 { Some(p.subrange(i + 1, p.len() as int)) } else { None },
        None => None,
    }
}

/// `Path::file_name` of `p`, as a string.  A path made from a `&str` always has a
/// UTF-8 file name, so the conversion back to `str` never fails.  As std
/// documents, a plain single name is its own file name.
#[verifier::external_body]
pub(crate) fn file_name_of(p: &str) -> (r: Option<String>)
    ensures
        match r {
            Some(x) => path_file_name(p@) == Some(x@),
            None => path_file_name(p@) is None,
        },
        is_plain_name(p@) ==> opt_view(r) == Some(p@),
{
    match Path::new(p).file_name() {
        Some(n) => n.to_str().map(String::from),
        None => None,
    }
}

/// `Path::file_stem` of `p`, as a string; for a plain single name, as std
/// documents, the part before its final `.` (the whole name when there is none
/// past a leading one).
#[verifier::external_body]
pub(crate) fn file_stem_of(p: &str) -> (r: Option<String>)
    ensures
        match r {
            Some(x) => path_file_stem(p@) == Some(x@),
            None => path_file_stem(p@) is None,
        },
        is_plain_name(p@) ==> opt_view(r) == Some(plain_stem(p@)),
{
    match Path::new(p).file_stem() {
        Some(n) => n.to_str().map(String::from),
        None => None,
    }
}

/// `Path::parent` of `p`, as a string; for a plain single name, as std documents,
/// the empty path.
#[verifier::external_body]
pub(crate) fn parent_of(p: &str) -> (r: Option<String>)
    ensures
        match r {
            Some(x) => path_parent(p@) == Some(x@),
            None => path_parent(p@) is None,
        },
        is_plain_name(p@) ==> opt_view(r) == Some(Seq::<char>::empty()),
{
    match Path::new(p).parent() {
        Some(n) => n.to_str().map(String::from),
        None => None,
    }
}

/// `Path::extension` of `p`, as a string; for a plain single name, as std
/// documents, the part after its final `.` (none when there is none past a
/// leading one).
#[verifier::external_body]
pub(crate) fn extension_of(p: &str) -> (r: Option<String>)
    ensures
        match r {
            Some(x) => path_extension(p@) == Some(x@),
            None => path_extension(p@) is None,
        },
        is_plain_name(p@) ==> opt_view(r) == plain_extension(p@),
{
    match Path::new(p).extension() {
        Some(n) => n.to_str().map(String::from),
        None => None,
    }
}

// ───────────────────────── verified operations ─────────────────────────

/// The characters of `s`.
pub fn chars_of(s: &str) -> (v: Vec<char>)
    ensures
        v@ == s@,
{
    let mut v: Vec<char> = Vec::new();
    for c in it: s.chars()
        invariant
            v@ == it.seq().take(it.index() as int),
    {
        v.push(c);
    }
    v
}

/// A string holding the characters `v`.
pub fn string_of(v: &[char]) -> (s: String)
    ensures
        s@ == v@,
{
    let mut s = String::new();
    let mut i: usize = 0;
    while i < v.len()
        invariant
            i <= v.len(),
            s@ == v@.subrange(0, i as int),
        decreases v.len() - i,
    {
        push_char(&mut s, v[i]);
        i = i + 1;
        assert(s@ =~= v@.subrange(0, i as int));
    }
    assert(v@.subrange(0, v.len() as int) =~= v@);
    s
}

/// Lower-cased characters of `s`.
pub fn lower_chars(s: &str) -> (v: Vec<char>)
    ensures
        v@ == lowercase(s@),
        is_ascii_text(s@) ==> v@ == ascii_lower(s@),
        keeps_ascii_tails(s@, v@),
{
    let l = to_lower(s);
    chars_of(l.as_str())
}

/// Upper-cased characters of `s`.
pub fn upper_chars(s: &str) -> (v: Vec<char>)
    ensures
        v@ == uppercase(s@),
        is_ascii_text(s@) ==> v@ == ascii_upper(s@),
{
    let u = to_upper(s);
    chars_of(u.as_str())
}

/// A copy of `s[from..to]`.
pub fn slice_copy(s: &[char], from: usize, to: usize) -> (r: Vec<char>)
    requires
        from <= to <= s@.len(),
    ensures
        r@ == s@.subrange(from as int, to as int),
{
    let mut r: Vec<char> = Vec::new();
    let mut i = from;
    while i < to
        invariant
            from <= i <= to <= s@.len(),
            r@ == s@.subrange(from as int, i as int),
        decreases to - i,
    {
        r.push(s[i]);
        i = i + 1;
        assert(r@ =~= s@.subrange(from as int, i as int));
    }
    r
}

/// `a == b` on character sequences.
pub fn chars_eq(a: &[char], b: &[char]) -> (r: bool)
    ensures
        r == (a@ == b@),
{
    if a.len() != b.len() {
        return false;
    }
    let mut i: usize = 0;
    while i < a.len()
        invariant
            a@.len() == b@.len(),
            i <= a@.len(),
            forall|k: int| 0 <= k < i ==> a@[k] == b@[k],
        decreases a.len() - i,
    {
        if a[i] != b[i] {
            return false;
        }
        i = i + 1;
    }
    assert(a@ =~= b@);
    true
}

/// `s == lit` for a string slice.
pub fn eq_str(s: &[char], lit: &str) -> (r: bool)
    ensures
        r == (s@ == lit@),
{
    let p = chars_of(lit);
    chars_eq(s, &p)
}

/// Does `p` occur in `s` at position `i`?
pub fn matches_at(s: &[char], p: &[char], i: usize) -> (r: bool)
    ensures
        r == occurs_at(s@, p@, i as int),
{
    let sl = s.len();
    if i > sl || p.len() > sl - i {
        return false;
    }
    let mut j: usize = 0;
    while j < p.len()
        invariant
            sl == s@.len(),
            i <= s@.len(),
            i + p@.len() <= s@.len(),
            j <= p@.len(),
            forall|k: int| 0 <= k < j ==> s@[i + k] == p@[k],
        decreases p.len() - j,
    {
        if s[i + j] != p[j] {
            assert(s@.subrange(i as int, i + p@.len())[j as int] != p@[j as int]);
            return false;
        }
        j = j + 1;
    }
    assert(s@.subrange(i as int, i + p@.len()) =~= p@);
    true
}

proof fn lemma_find_from_none(s: Seq<char>, p: Seq<char>, i: int)
    requires
        0 <= i,
        find_from(s, p, i) is None,
    ensures
        forall|j: int| i <= j ==> !occurs_at(s, p, j),
    decreases s.len() + 1 - i,
{
    if i + p.len() <= s.len() {
        lemma_find_from_none(s, p, i + 1);
    }
}

proof fn lemma_find_from_some(s: Seq<char>, p: Seq<char>, i: int)
    requires
        0 <= i,
        find_from(s, p, i) is Some,
    ensures
        occurs_at(s, p, find_from(s, p, i)->0),
        i <= find_from(s, p, i)->0,
        forall|j: int| i <= j < find_from(s, p, i)->0 ==> !occurs_at(s, p, j),
    decreases s.len() + 1 - i,
{
    if !occurs_at(s, p, i) {
        lemma_find_from_some(s, p, i + 1);
    }
}

/// `find` agrees with the first occurrence, and is `None` exactly when `p` does not occur.
pub proof fn lemma_find(s: Seq<char>, p: Seq<char>)
    ensures
        find(s, p) is None <==> !contains(s, p),
        find(s, p) matches Some(i) ==> occurs_at(s, p, i) && forall|j: int|
            0 <= j < i ==> !occurs_at(s, p, j),
{
    if find(s, p) is None {
        lemma_find_from_none(s, p, 0);
    } else {
        lemma_find_from_some(s, p, 0);
    }
}

/// First position of `p` in `s` (`str::find`).
pub fn find_chars(s: &[char], p: &[char]) -> (r: Option<usize>)
    ensures
        match r {
            Some(i) => find(s@, p@) == Some(i as int),
            None => find(s@, p@) is None,
        },
{
    if p.len() > s.len() {
        return None;
    }
    let last = s.len() - p.len();
    let mut i: usize = 0;
    while i <= last
        invariant
            last == s@.len() - p@.len(),
            i <= last,
            find(s@, p@) == find_from(s@, p@, i as int),
        decreases last - i,
    {
        if matches_at(s, p, i) {
            return Some(i);
        }
        if i == last {
            assert(find_from(s@, p@, i + 1) is None);
            return None;
        }
        i = i + 1;
    }
    None
}

/// First position of the literal `p` in `s`.
pub fn find_str(s: &[char], p: &str) -> (r: Option<usize>)
    ensures
        match r {
            Some(i) => find(s@, p@) == Some(i as int),
            None => find(s@, p@) is None,
        },
{
    let pc = chars_of(p);
    find_chars(s, &pc)
}

/// Does `p` occur in `s`?
pub fn has_sub(s: &[char], p: &str) -> (r: bool)
    ensures
        r == contains(s@, p@),
{
    proof {
        lemma_find(s@, p@);
    }
    find_str(s, p).is_some()
}

/// Does `p` occur in `s` (both given as characters)?
pub fn has_sub_chars(s: &[char], p: &[char]) -> (r: bool)
    ensures
        r == contains(s@, p@),
{
    proof {
        lemma_find(s@, p@);
    }
    find_chars(s, p).is_some()
}

/// Is `p` a prefix of `s`?
pub fn has_prefix(s: &[char], p: &str) -> (r: bool)
    ensures
        r == starts_with(s@, p@),
{
    let pc = chars_of(p);
    let r = matches_at(s, &pc, 0);
    proof {
        if r {
            assert(s@.subrange(0, pc@.len() as int) == pc@);
        }
    }
    r
}

/// Is `p` a suffix of `s`?
pub fn has_suffix(s: &[char], p: &str) -> (r: bool)
    ensures
        r == ends_with(s@, p@),
{
    let pc = chars_of(p);
    if pc.len() > s.len() {
        return false;
    }
    matches_at(s, &pc, s.len() - pc.len())
}

/// Does some word of `pats` occur in `s`?
pub fn has_any_sub(s: &[char], pats: &[&str]) -> (r: bool)
    ensures
        r == contains_any(s@, pats@),
{
    let mut k: usize = 0;
    while k < pats.len()
        invariant
            k <= pats@.len(),
            forall|j: int| 0 <= j < k ==> !contains(s@, #[trigger] pats@[j]@),
        decreases pats.len() - k,
    {
        if has_sub(s, pats[k]) {
            return true;
        }
        k = k + 1;
    }
    false
}

/// Does `s` equal some word of `pats`?
pub fn eq_any(s: &[char], pats: &[&str]) -> (r: bool)
    ensures
        r == equals_any(s@, pats@),
{
    let mut k: usize = 0;
    while k < pats.len()
        invariant
            k <= pats@.len(),
            forall|j: int| 0 <= j < k ==> s@ != #[trigger] pats@[j]@,
        decreases pats.len() - k,
    {
        if eq_str(s, pats[k]) {
            return true;
        }
        k = k + 1;
    }
    false
}

/// Does `s` end with some word of `pats`?
pub fn has_any_suffix(s: &[char], pats: &[&str]) -> (r: bool)
    ensures
        r == ends_with_any(s@, pats@),
{
    let mut k: usize = 0;
    while k < pats.len()
        invariant
            k <= pats@.len(),
            forall|j: int| 0 <= j < k ==> !ends_with(s@, #[trigger] pats@[j]@),
        decreases pats.len() - k,
    {
        if has_suffix(s, pats[k]) {
            return true;
        }
        k = k + 1;
    }
    false
}

/// `s` with every `from` character replaced by `to`.
pub fn replace_char_chars(s: &[char], from: char, to: char) -> (r: Vec<char>)
    ensures
        r@ == replace_char(s@, from, to),
{
    let mut r: Vec<char> = Vec::new();
    let mut i: usize = 0;
    while i < s.len()
        invariant
            i <= s@.len(),
            r@ == replace_char(s@.subrange(0, i as int), from, to),
        decreases s.len() - i,
    {
        let c = s[i];
        r.push(if c == from { to } else { c });
        i = i + 1;
        assert(r@ =~= replace_char(s@.subrange(0, i as int), from, to));
    }
    assert(s@.subrange(0, s@.len() as int) =~= s@);
    r
}

/// `s` with every occurrence of the non-empty pattern `from` replaced by `to`
/// (`str::replace`).
pub fn replace_str_chars(s: &[char], from: &str, to: &str) -> (r: Vec<char>)
    requires
        from@.len() > 0,
    ensures
        r@ == replace_all(s@, from@, to@),
{
    let fc = chars_of(from);
    let tc = chars_of(to);
    let mut r: Vec<char> = Vec::new();
    let mut start: usize = 0;
    let mut rest = slice_copy(s, 0, s.len());
    assert(rest@ =~= s@.subrange(0, s@.len() as int));
    assert(rest@ =~= s@);
    assert(r@ + replace_all(rest@, fc@, tc@) =~= replace_all(s@, fc@, tc@));
    while start < s.len() || start == s.len()
        invariant
            fc@ == from@,
            tc@ == to@,
            fc@.len() > 0,
            start <= s@.len(),
            rest@ == s@.subrange(start as int, s@.len() as int),
            r@ + replace_all(rest@, fc@, tc@) == replace_all(s@, fc@, tc@),
        decreases s@.len() - start + 1,
    {
        match find_chars(&rest, &fc) {
            None => {
                proof {
                    assert(replace_all(rest@, fc@, tc@) == rest@);
                }
                let mut out = r;
                let mut i: usize = 0;
                while i < rest.len()
                    invariant
                        i <= rest@.len(),
                        out@ == r@ + rest@.subrange(0, i as int),
                    decreases rest.len() - i,
                {
                    out.push(rest[i]);
                    i = i + 1;
                    assert(out@ =~= r@ + rest@.subrange(0, i as int));
                }
                assert(rest@.subrange(0, rest@.len() as int) =~= rest@);
                return out;
            },
            Some(i) => {
                proof {
                    lemma_find(rest@, fc@);
                }
                let ghost old_r = r@;
                let ghost old_rest = rest@;
                let mut j: usize = 0;
                while j < i
                    invariant
                        i + fc@.len() <= rest@.len(),
                        j <= i,
                        r@ == old_r + rest@.subrange(0, j as int),
                    decreases i - j,
                {
                    r.push(rest[j]);
                    j = j + 1;
                    assert(r@ =~= old_r + rest@.subrange(0, j as int));
                }
                let mut m: usize = 0;
                while m < tc.len()
                    invariant
                        i + fc@.len() <= rest@.len(),
                        m <= tc@.len(),
                        r@ == old_r + rest@.subrange(0, i as int) + tc@.subrange(0, m as int),
                    decreases tc.len() - m,
                {
                    r.push(tc[m]);
                    m = m + 1;
                    assert(r@ =~= old_r + rest@.subrange(0, i as int) + tc@.subrange(
                        0,
                        m as int,
                    ));
                }
                assert(tc@.subrange(0, tc@.len() as int) =~= tc@);
                let next = slice_copy(&rest, i + fc.len(), rest.len());
                proof {
                    assert(replace_all(old_rest, fc@, tc@) == old_rest.subrange(0, i as int) + tc@
                        + replace_all(next@, fc@, tc@));
                    assert(r@ + replace_all(next@, fc@, tc@) =~= old_r + replace_all(
                        old_rest,
                        fc@,
                        tc@,
                    ));
                    assert(next@ =~= s@.subrange(
                        start + i + fc@.len(),
                        s@.len() as int,
                    ));
                }
                start = start + i + fc.len();
                rest = next;
            },
        }
    }
    r
}

/// `s` with leading and trailing white space removed (`str::trim`).
pub fn trim_chars(s: &[char]) -> (r: Vec<char>)
    ensures
        r@ == trim(s@),
{
    let mut end = s.len();
    assert(s@.subrange(0, end as int) =~= s@);
    while end > 0 && is_ws_exec(s[end - 1])
        invariant
            end <= s@.len(),
            trail_ws(s@) == (s@.len() - end) + trail_ws(s@.subrange(0, end as int)),
        decreases end,
    {
        proof {
            let t = s@.subrange(0, end as int);
            assert(t.drop_last() =~= s@.subrange(0, end - 1));
        }
        end = end - 1;
    }
    proof {
        let t = s@.subrange(0, end as int);
        assert(trail_ws(t) == 0);
    }
    let t = slice_copy(s, 0, end);
    let mut start: usize = 0;
    assert(t@.subrange(0, t@.len() as int) =~= t@);
    while start < t.len() && is_ws_exec(t[start])
        invariant
            start <= t@.len(),
            lead_ws(t@) == start + lead_ws(t@.subrange(start as int, t@.len() as int)),
        decreases t.len() - start,
    {
        proof {
            let u = t@.subrange(start as int, t@.len() as int);
            assert(u.subrange(1, u.len() as int) =~= t@.subrange(start + 1, t@.len() as int));
        }
        start = start + 1;
    }
    slice_copy(&t, start, t.len())
}

/// `char::is_whitespace`.
pub fn is_ws_exec(c: char) -> (r: bool)
    ensures
        r == is_ws(c),
{
    ('\u{9}' <= c && c <= '\u{d}') || c == ' ' || c == '\u{85}' || c == '\u{a0}' || c
        == '\u{1680}' || ('\u{2000}' <= c && c <= '\u{200a}') || c == '\u{2028}' || c
        == '\u{2029}' || c == '\u{202f}' || c == '\u{205f}' || c == '\u{3000}'
}

/// `s` with every trailing `c` removed.
pub fn trim_end_char_chars(s: &[char], c: char) -> (r: Vec<char>)
    ensures
        r@ == trim_end_char(s@, c),
{
    let mut end = s.len();
    assert(s@.subrange(0, end as int) =~= s@);
    while end > 0 && s[end - 1] == c
        invariant
            end <= s@.len(),
            trim_end_char(s@, c) == trim_end_char(s@.subrange(0, end as int), c),
        decreases end,
    {
        proof {
            assert(s@.subrange(0, end as int).drop_last() =~= s@.subrange(0, end - 1));
        }
        end = end - 1;
    }
    slice_copy(s, 0, end)
}

/// Pieces of `s` between the separator characters (`str::split`).
pub fn split_chars(s: &[char], seps: &[char]) -> (r: Vec<Vec<char>>)
    ensures
        r@.len() == split_on(s@, seps@).len(),
        r@.len() >= 1,
        forall|k: int| 0 <= k < r@.len() ==> #[trigger] r@[k]@ == split_on(s@, seps@)[k],
{
    let mut r: Vec<Vec<char>> = Vec::new();
    let mut cur: Vec<char> = Vec::new();
    let mut i: usize = 0;
    proof {
        assert(s@.subrange(0, 0) =~= Seq::<char>::empty());
    }
    while i < s.len()
        invariant
            i <= s@.len(),
            split_on(s@.subrange(0, i as int), seps@).len() == r@.len() + 1,
            forall|k: int|
                0 <= k < r@.len() ==> #[trigger] r@[k]@ == split_on(
                    s@.subrange(0, i as int),
                    seps@,
                )[k],
            cur@ == split_on(s@.subrange(0, i as int), seps@).last(),
        decreases s.len() - i,
    {
        let c = s[i];
        proof {
            assert(s@.subrange(0, i + 1).drop_last() =~= s@.subrange(0, i as int));
        }
        let mut is_sep = false;
        let mut k: usize = 0;
        while k < seps.len()
            invariant
                k <= seps@.len(),
                is_sep == (exists|j: int| 0 <= j < k && seps@[j] == c),
            decreases seps.len() - k,
        {
            if seps[k] == c {
                is_sep = true;
            }
            k = k + 1;
        }
        assert(is_sep == seps@.contains(c));
        if is_sep {
            r.push(cur);
            cur = Vec::new();
        } else {
            cur.push(c);
        }
        i = i + 1;
    }
    r.push(cur);
    assert(s@.subrange(0, s@.len() as int) =~= s@);
    proof {
        lemma_split_nonempty(s@, seps@);
    }
    r
}

/// `str::parse::<usize>`.
pub fn parse_usize_chars(s: &[char]) -> (r: Option<usize>)
    ensures
        r == parse_usize(s@),
{
    let start: usize = if s.len() > 0 && s[0] == '+' { 1 } else { 0 };
    let ghost d = unsigned_digits(s@);
    proof {
        if start == 0 {
            assert(s@.subrange(0, s@.len() as int) =~= s@);
        }
    }
    if start >= s.len() {
        return None;
    }
    let mut val: usize = 0;
    let mut i = start;
    while i < s.len()
        invariant
            start <= i <= s@.len(),
            d == s@.subrange(start as int, s@.len() as int),
            d == unsigned_digits(s@),
            all_digits(s@.subrange(start as int, i as int)),
            val == digits_value(s@.subrange(start as int, i as int)),
        decreases s.len() - i,
    {
        let c = s[i];
        let ghost sub = s@.subrange(start as int, i + 1);
        proof {
            assert(sub.drop_last() =~= s@.subrange(start as int, i as int));
        }
        if !('0' <= c && c <= '9') {
            proof {
                assert(d[i - start] == c);
                assert(!is_digit(d[i - start]));
                assert(!all_digits(d));
                assert(parse_usize(s@) is None);
            }
            return None;
        }
        let dv = (c as u32 - '0' as u32) as usize;
        proof {
            assert(sub.last() == c);
            assert(digits_value(sub) == digits_value(sub.drop_last()) * 10 + digit_value(
                sub.last(),
            ));
            assert(dv == digit_value(c));
        }
        if val > (usize::MAX - dv) / 10 {
            proof {
                assert(val * 10 + dv > usize::MAX) by (nonlinear_arith)
                    requires
                        val > (usize::MAX - dv) / 10,
                        dv <= 9,
                ;
                assert(d.subrange(0, i - start + 1) =~= sub);
                lemma_digits_prefix_bound(d, i - start + 1, usize::MAX as int);
                assert(parse_usize(s@) is None);
            }
            return None;
        }
        assert(val * 10 + dv <= usize::MAX) by (nonlinear_arith)
            requires
                val <= (usize::MAX - dv) / 10,
                dv <= 9,
        ;
        val = val * 10 + dv;
        i = i + 1;
        proof {
            assert forall|k: int| 0 <= k < sub.len() implies is_digit(#[trigger] sub[k]) by {
                if k < sub.len() - 1 {
                    assert(sub[k] == s@.subrange(start as int, i - 1)[k]);
                }
            }
        }
    }
    Some(val)
}

/// `str::parse::<u64>`.
pub fn parse_u64_chars(s: &[char]) -> (r: Option<u64>)
    ensures
        r == parse_u64(s@),
{
    let start: usize = if s.len() > 0 && s[0] == '+' { 1 } else { 0 };
    let ghost d = unsigned_digits(s@);
    proof {
        if start == 0 {
            assert(s@.subrange(0, s@.len() as int) =~= s@);
        }
    }
    if start >= s.len() {
        return None;
    }
    let mut val: u64 = 0;
    let mut i = start;
    while i < s.len()
        invariant
            start <= i <= s@.len(),
            d == s@.subrange(start as int, s@.len() as int),
            d == unsigned_digits(s@),
            all_digits(s@.subrange(start as int, i as int)),
            val == digits_value(s@.subrange(start as int, i as int)),
        decreases s.len() - i,
    {
        let c = s[i];
        let ghost sub = s@.subrange(start as int, i + 1);
        proof {
            assert(sub.drop_last() =~= s@.subrange(start as int, i as int));
        }
        if !('0' <= c && c <= '9') {
            proof {
                assert(d[i - start] == c);
                assert(!is_digit(d[i - start]));
                assert(!all_digits(d));
                assert(parse_u64(s@) is None);
            }
            return None;
        }
        let dv = (c as u32 - '0' as u32) as u64;
        proof {
            assert(sub.last() == c);
            assert(digits_value(sub) == digits_value(sub.drop_last()) * 10 + digit_value(
                sub.last(),
            ));
            assert(dv == digit_value(c));
        }
        if val > (u64::MAX - dv) / 10 {
            proof {
                assert(val * 10 + dv > u64::MAX) by (nonlinear_arith)
                    requires
                        val > (u64::MAX - dv) / 10,
                        dv <= 9,
                ;
                assert(d.subrange(0, i - start + 1) =~= sub);
                lemma_digits_prefix_bound(d, i - start + 1, u64::MAX as int);
                assert(parse_u64(s@) is None);
            }
            return None;
        }
        assert(val * 10 + dv <= u64::MAX) by (nonlinear_arith)
            requires
                val <= (u64::MAX - dv) / 10,
                dv <= 9,
        ;
        val = val * 10 + dv;
        i = i + 1;
        proof {
            assert forall|k: int| 0 <= k < sub.len() implies is_digit(#[trigger] sub[k]) by {
                if k < sub.len() - 1 {
                    assert(sub[k] == s@.subrange(start as int, i - 1)[k]);
                }
            }
        }
    }
    Some(val)
}

proof fn lemma_digits_monotone(s: Seq<char>, n: int)
    requires
        0 <= n <= s.len(),
        all_digits(s),
    ensures
        digits_value(s.subrange(0, n)) <= digits_value(s),
        0 <= digits_value(s.subrange(0, n)),
    decreases s.len(),
{
    lemma_digits_nonneg(s);
    lemma_digits_nonneg(s.subrange(0, n));
    if n < s.len() {
        assert(s.drop_last().subrange(0, n) =~= s.subrange(0, n));
        lemma_digits_monotone(s.drop_last(), n);
        lemma_digits_nonneg(s.drop_last());
        assert(digits_value(s) == digits_value(s.drop_last()) * 10 + digit_value(s.last()));
    } else {
        assert(s.subrange(0, n) =~= s);
    }
}

proof fn lemma_digits_nonneg(s: Seq<char>)
    requires
        all_digits(s),
    ensures
        0 <= digits_value(s),
    decreases s.len(),
{
    if s.len() > 0 {
        lemma_digits_nonneg(s.drop_last());
    }
}

proof fn lemma_digits_prefix_bound(d: Seq<char>, n: int, limit: int)
    requires
        0 < n <= d.len(),
        digits_value(d.subrange(0, n)) > limit,
    ensures
        !(all_digits(d) && digits_value(d) <= limit),
{
    if all_digits(d) {
        lemma_digits_monotone(d, n);
    }
}

// ───────────────────────── list-driven helpers ─────────────────────────

/// `s` without its last `n` characters (empty when `s` is shorter).
pub open spec fn drop_end(s: Seq<char>, n: int) -> Seq<char> {
    if 0 <= n <= s.len() {
        s.subrange(0, s.len() - n)
    } else if n > s.len() {
        Seq::<char>::empty()
    } else {
        s
    }
}

/// `s` cut at position `i` (all of `s` when `i` lies past its end).
pub open spec fn take_upto(s: Seq<char>, i: int) -> Seq<char> {
    if 0 <= i <= s.len() {
        s.subrange(0, i)
    } else {
        s
    }
}

/// `s` with the first suffix of `sufs` (from index `k` on, in list order) that ends it
/// removed; `s` itself when none does.
pub open spec fn strip_first_suffix_from(s: Seq<char>, sufs: Seq<&str>, k: int) -> Seq<char>
    decreases sufs.len() - k,
{
    if k < 0 || k >= sufs.len() {
        s
    } else if ends_with(s, sufs[k]@) {
        drop_end(s, sufs[k]@.len() as int)
    } else {
        strip_first_suffix_from(s, sufs, k + 1)
    }
}

pub open spec fn strip_first_suffix(s: Seq<char>, sufs: Seq<&str>) -> Seq<char> {
    strip_first_suffix_from(s, sufs, 0)
}

/// Position in `s` of the first pattern of `pats` (from index `k` on, in list order) that
/// occurs in `s`.
pub open spec fn first_found_from(s: Seq<char>, pats: Seq<&str>, k: int) -> Option<int>
    decreases pats.len() - k,
{
    if k < 0 || k >= pats.len() {
        None
    } else {
        match find(s, pats[k]@) {
            Some(i) => Some(i),
            None => first_found_from(s, pats, k + 1),
        }
    }
}

pub open spec fn first_found(s: Seq<char>, pats: Seq<&str>) -> Option<int> {
    first_found_from(s, pats, 0)
}

/// Index in `pats` of the first pattern (from index `k` on) that occurs in `s`.
pub open spec fn first_contained_from(s: Seq<char>, pats: Seq<&str>, k: int) -> Option<int>
    decreases pats.len() - k,
{
    if k < 0 || k >= pats.len() {
        None
    } else if contains(s, pats[k]@) {
        Some(k)
    } else {
        first_contained_from(s, pats, k + 1)
    }
}

pub open spec fn first_contained(s: Seq<char>, pats: Seq<&str>) -> Option<int> {
    first_contained_from(s, pats, 0)
}

/// The strings of `parts` joined with `sep` between them (`slice::join`).
pub open spec fn join(parts: Seq<Seq<char>>, sep: Seq<char>) -> Seq<char>
    decreases parts.len(),
{
    if parts.len() == 0 {
        Seq::<char>::empty()
    } else if parts.len() == 1 {
        parts[0]
    } else {
        join(parts.drop_last(), sep) + sep + parts.last()
    }
}

/// `s` without its last `n` characters.
pub fn drop_end_chars(s: &[char], n: usize) -> (r: Vec<char>)
    ensures
        r@ == drop_end(s@, n as int),
{
    if n <= s.len() {
        slice_copy(s, 0, s.len() - n)
    } else {
        Vec::new()
    }
}

/// `s` cut at position `i`.
pub fn take_upto_chars(s: &[char], i: usize) -> (r: Vec<char>)
    ensures
        r@ == take_upto(s@, i as int),
{
    if i <= s.len() {
        slice_copy(s, 0, i)
    } else {
        slice_copy(s, 0, s.len())
    }
}

/// Removes the first suffix of `sufs` that ends `s`.
pub fn strip_first_suffix_chars(s: &[char], sufs: &[&str]) -> (r: Vec<char>)
    ensures
        r@ == strip_first_suffix(s@, sufs@),
{
    let mut k: usize = 0;
    while k < sufs.len()
        invariant
            k <= sufs@.len(),
            strip_first_suffix(s@, sufs@) == strip_first_suffix_from(s@, sufs@, k as int),
        decreases sufs.len() - k,
    {
        if has_suffix(s, sufs[k]) {
            let n = sufs[k].unicode_len();
            return drop_end_chars(s, n);
        }
        k = k + 1;
    }
    assert(s@.subrange(0, s@.len() as int) =~= s@);
    slice_copy(s, 0, s.len())
}

/// Position of the first pattern of `pats` (in list order) that occurs in `s`.
pub fn first_found_chars(s: &[char], pats: &[&str]) -> (r: Option<usize>)
    ensures
        match r {
            Some(i) => first_found(s@, pats@) == Some(i as int),
            None => first_found(s@, pats@) is None,
        },
{
    let mut k: usize = 0;
    while k < pats.len()
        invariant
            k <= pats@.len(),
            first_found(s@, pats@) == first_found_from(s@, pats@, k as int),
        decreases pats.len() - k,
    {
        match find_str(s, pats[k]) {
            Some(i) => {
                return Some(i);
            },
            None => {},
        }
        k = k + 1;
    }
    None
}

/// Index of the first pattern of `pats` that occurs in `s`.
pub fn first_contained_chars(s: &[char], pats: &[&str]) -> (r: Option<usize>)
    ensures
        match r {
            Some(k) => first_contained(s@, pats@) == Some(k as int) && k < pats@.len(),
            None => first_contained(s@, pats@) is None,
        },
{
    let mut k: usize = 0;
    while k < pats.len()
        invariant
            k <= pats@.len(),
            first_contained(s@, pats@) == first_contained_from(s@, pats@, k as int),
        decreases pats.len() - k,
    {
        if has_sub(s, pats[k]) {
            return Some(k);
        }
        k = k + 1;
    }
    None
}

/// `a` followed by `b`.
pub fn concat_chars(a: &[char], b: &[char]) -> (r: Vec<char>)
    ensures
        r@ == a@ + b@,
{
    let mut r = slice_copy(a, 0, a.len());
    let mut i: usize = 0;
    assert(r@ =~= a@ + b@.subrange(0, 0));
    while i < b.len()
        invariant
            i <= b@.len(),
            r@ == a@ + b@.subrange(0, i as int),
        decreases b.len() - i,
    {
        r.push(b[i]);
        i = i + 1;
        assert(r@ =~= a@ + b@.subrange(0, i as int));
    }
    assert(b@.subrange(0, b@.len() as int) =~= b@);
    r
}

/// `a` followed by the literal `b`.
pub fn concat_str(a: &[char], b: &str) -> (r: Vec<char>)
    ensures
        r@ == a@ + b@,
{
    let bc = chars_of(b);
    concat_chars(a, &bc)
}

/// The strings of `parts` joined with `sep`.
pub fn join_strings(parts: &[String], sep: &str) -> (r: Vec<char>)
    ensures
        r@ == join(string_views(parts@), sep@),
{
    let ghost v = string_views(parts@);
    let sc = chars_of(sep);
    let mut r: Vec<char> = Vec::new();
    let mut i: usize = 0;
    while i < parts.len()
        invariant
            v == string_views(parts@),
            sc@ == sep@,
            i <= parts@.len(),
            r@ == join(v.subrange(0, i as int), sep@),
        decreases parts.len() - i,
    {
        let pc = chars_of(parts[i].as_str());
        proof {
            assert(v.subrange(0, i + 1).drop_last() =~= v.subrange(0, i as int));
            assert(v[i as int] == parts@[i as int]@);
        }
        if i == 0 {
            r = pc;
            assert(v.subrange(0, 1) =~= seq![v[0]]);
        } else {
            let t = concat_chars(&r, &sc);
            r = concat_chars(&t, &pc);
        }
        i = i + 1;
    }
    assert(v.subrange(0, parts@.len() as int) =~= v);
    r
}

/// Index in `sufs` of the first suffix (from index `k` on) that ends `s`.
pub open spec fn first_suffix_from(s: Seq<char>, sufs: Seq<&str>, k: int) -> Option<int>
    decreases sufs.len() - k,
{
    if k < 0 || k >= sufs.len() {
        None
    } else if ends_with(s, sufs[k]@) {
        Some(k)
    } else {
        first_suffix_from(s, sufs, k + 1)
    }
}

pub open spec fn first_suffix(s: Seq<char>, sufs: Seq<&str>) -> Option<int> {
    first_suffix_from(s, sufs, 0)
}

/// Index of the first suffix of `sufs` that ends `s`.
pub fn first_suffix_chars(s: &[char], sufs: &[&str]) -> (r: Option<usize>)
    ensures
        match r {
            Some(k) => first_suffix(s@, sufs@) == Some(k as int) && k < sufs@.len(),
            None => first_suffix(s@, sufs@) is None,
        },
{
    let mut k: usize = 0;
    while k < sufs.len()
        invariant
            k <= sufs@.len(),
            first_suffix(s@, sufs@) == first_suffix_from(s@, sufs@, k as int),
        decreases sufs.len() - k,
    {
        if has_suffix(s, sufs[k]) {
            return Some(k);
        }
        k = k + 1;
    }
    None
}

/// View of an optional string.
pub open spec fn opt_view(o: Option<String>) -> Option<Seq<char>> {
    match o {
        Some(s) => Some(s@),
        None => None,
    }
}

/// `Path::file_name(p)` or, when there is none, `p` itself.
pub fn file_name_or_self(p: &str) -> (r: Vec<char>)
    ensures
        r@ == or_else(path_file_name(p@), p@),
{
    match file_name_of(p) {
        Some(n) => chars_of(n.as_str()),
        None => chars_of(p),
    }
}

/// `Path::file_stem(p)` or, when there is none, `p` itself.
pub fn file_stem_or_self(p: &str) -> (r: Vec<char>)
    ensures
        r@ == or_else(path_file_stem(p@), p@),
{
    match file_stem_of(p) {
        Some(n) => chars_of(n.as_str()),
        None => chars_of(p),
    }
}

/// `Path::parent(p)` or, when there is none, the empty string.
pub fn parent_or_empty(p: &str) -> (r: Vec<char>)
    ensures
        r@ == or_else(path_parent(p@), Seq::<char>::empty()),
{
    match parent_of(p) {
        Some(n) => chars_of(n.as_str()),
        None => Vec::new(),
    }
}

/// Lower-cased copy of the characters `v`.
pub fn lower_of_chars(v: &[char]) -> (r: Vec<char>)
    ensures
        r@ == lowercase(v@),
{
    let s = string_of(v);
    lower_chars(s.as_str())
}

/// Upper-cased copy of the characters `v`.
pub fn upper_of_chars(v: &[char]) -> (r: Vec<char>)
    ensures
        r@ == uppercase(v@),
{
    let s = string_of(v);
    upper_chars(s.as_str())
}

/// The lower-cased path's file name (the lower-cased path itself when it has none).
pub open spec fn lower_base(f: Seq<char>) -> Seq<char> {
    or_else(path_file_name(lowercase(f)), lowercase(f))
}

/// File name of the lower-cased path.
pub fn lower_basename(f: &str) -> (r: Vec<char>)
    ensures
        r@ == lower_base(f@),
{
    let l = to_lower(f);
    file_name_or_self(l.as_str())
}

/// Does the character `c` occur in `s`?
pub fn has_char(s: &[char], c: char) -> (r: bool)
    ensures
        r == s@.contains(c),
{
    let mut i: usize = 0;
    while i < s.len()
        invariant
            i <= s@.len(),
            forall|j: int| 0 <= j < i ==> s@[j] != c,
        decreases s.len() - i,
    {
        if s[i] == c {
            return true;
        }
        i = i + 1;
    }
    false
}

/// `Some(s@)` for a present string slice.
pub open spec fn opt_str_view(o: Option<&str>) -> Option<Seq<char>> {
    match o {
        Some(s) => Some(s@),
        None => None,
    }
}

/// Owned copies of the string slices `a`.
pub fn strs_to_strings(a: &[&str]) -> (r: Vec<String>)
    ensures
        string_views(r@) == views(a@),
{
    let mut r: Vec<String> = Vec::new();
    let mut i: usize = 0;
    while i < a.len()
        invariant
            i <= a@.len(),
            r@.len() == i,
            forall|j: int| 0 <= j < i ==> #[trigger] r@[j]@ == a@[j]@,
        decreases a.len() - i,
    {
        let item: &str = a[i];
        let s = item.to_owned();
        r.push(s);
        i = i + 1;
    }
    assert(string_views(r@) =~= views(a@));
    r
}

/// Does the list hold a string equal to `s`?
pub fn strings_contain(v: &[String], s: &str) -> (r: bool)
    ensures
        r == string_views(v@).contains(s@),
{
    let ghost g = string_views(v@);
    let sc = chars_of(s);
    let mut i: usize = 0;
    while i < v.len()
        invariant
            g == string_views(v@),
            sc@ == s@,
            i <= v@.len(),
            forall|j: int| 0 <= j < i ==> g[j] != s@,
        decreases v.len() - i,
    {
        let c = chars_of(v[i].as_str());
        assert(g[i as int] == v@[i as int]@);
        if chars_eq(&c, &sc) {
            return true;
        }
        i = i + 1;
    }
    false
}

/// Splitting always yields at least one piece.
pub proof fn lemma_split_nonempty(s: Seq<char>, seps: Seq<char>)
    ensures
        split_on(s, seps).len() >= 1,
    decreases s.len(),
{
    if s.len() > 0 {
        lemma_split_nonempty(s.drop_last(), seps);
    }
}

/// What `Path::join` returns for a base path and a relative piece.
pub uninterp spec fn path_join(base: Seq<char>, piece: Seq<char>) -> Seq<char>;

/// `Path::join`: the base path extended by `piece`.  A path built from UTF-8 pieces is
/// UTF-8, so the conversion back to a string is exact.
#[verifier::external_body]
pub(crate) fn join_path(base: &str, piece: &str) -> (r: String)
    ensures
        r@ == path_join(base@, piece@),
{
    Path::new(base).join(piece).to_string_lossy().into_owned()
}


/// The decimal digit character for `d` (0 to 9).
pub open spec fn digit_char(d: nat) -> char {
    if d == 0 { '0' } else if d == 1 { '1' } else if d == 2 { '2' } else if d == 3 { '3' }
    else if d == 4 { '4' } else if d == 5 { '5' } else if d == 6 { '6' } else if d == 7 { '7' }
    else if d == 8 { '8' } else { '9' }
}

/// Decimal representation of `n`, without leading zeros.
pub open spec fn decimal(n: nat) -> Seq<char>
    decreases n,
{
    if n < 10 {
        seq![digit_char(n)]
    } else {
        decimal(n / 10).push(digit_char(n % 10))
    }
}

fn digit_of(d: u64) -> (c: char)
    requires
        d < 10,
    ensures
        c == digit_char(d as nat),
{
    if d == 0 { '0' } else if d == 1 { '1' } else if d == 2 { '2' } else if d == 3 { '3' }
    else if d == 4 { '4' } else if d == 5 { '5' } else if d == 6 { '6' } else if d == 7 { '7' }
    else if d == 8 { '8' } else { '9' }
}

/// Decimal characters of `n`.
pub fn decimal_chars(n: u64) -> (r: Vec<char>)
    ensures
        r@ == decimal(n as nat),
    decreases n,
{
    if n < 10 {
        let c = digit_of(n);
        let v = vec![c];
        assert(v@ =~= seq![digit_char(n as nat)]);
        v
    } else {
        let mut v = decimal_chars(n / 10);
        v.push(digit_of(n % 10));
        v
    }
}

/// Decimal representation of `n` (`n.to_string()`).
pub fn decimal_string(n: u64) -> (r: String)
    ensures
        r@ == decimal(n as nat),
{
    string_of(&decimal_chars(n))
}


/// `s` starts with some word of `pats`.
pub open spec fn starts_with_any(s: Seq<char>, pats: Seq<&str>) -> bool {
    exists|k: int| 0 <= k < pats.len() && starts_with(s, #[trigger] pats[k]@)
}

/// Does `s` start with some word of `pats`?
pub fn has_any_prefix(s: &[char], pats: &[&str]) -> (r: bool)
    ensures
        r == starts_with_any(s@, pats@),
{
    let mut k: usize = 0;
    while k < pats.len()
        invariant
            k <= pats@.len(),
            forall|j: int| 0 <= j < k ==> !starts_with(s@, #[trigger] pats@[j]@),
        decreases pats.len() - k,
    {
        if has_prefix(s, pats[k]) {
            return true;
        }
        k = k + 1;
    }
    false
}

/// Name of the parent directory of `p` (`p.parent()?.file_name()`).
pub open spec fn parent_name(p: Seq<char>) -> Seq<char> {
    match path_parent(p) {
        Some(par) => or_else(path_file_name(par), Seq::<char>::empty()),
        None => Seq::<char>::empty(),
    }
}

/// Name of the parent directory of `p`, or nothing.
pub fn parent_name_of(p: &str) -> (r: Vec<char>)
    ensures
        r@ == parent_name(p@),
{
    match parent_of(p) {
        Some(par) => match file_name_of(par.as_str()) {
            Some(n) => chars_of(n.as_str()),
            None => Vec::new(),
        },
        None => Vec::new(),
    }
}


/// Position of `s` among `words`, from `k` on.
pub open spec fn word_index_from(words: Seq<&str>, s: Seq<char>, k: int) -> Option<int>
    decreases words.len() - k,
{
    if k < 0 || k >= words.len() {
        None
    } else if words[k]@ == s {
        Some(k)
    } else {
        word_index_from(words, s, k + 1)
    }
}

/// Position of `s` among `words`.
pub open spec fn word_index(words: Seq<&str>, s: Seq<char>) -> Option<int> {
    word_index_from(words, s, 0)
}

/// Position of `s` among `words`.
pub fn find_word(words: &[&str], s: &[char]) -> (r: Option<usize>)
    ensures
        match r {
            Some(k) => word_index(words@, s@) == Some(k as int) && k < words@.len(),
            None => word_index(words@, s@) is None,
        },
{
    let mut k: usize = 0;
    while k < words.len()
        invariant
            k <= words@.len(),
            word_index(words@, s@) == word_index_from(words@, s@, k as int),
        decreases words.len() - k,
    {
        if eq_str(s, words[k]) {
            return Some(k);
        }
        k = k + 1;
    }
    None
}

/// The entry of `vals` paired with `s` in `keys`, or `fallback`.
pub open spec fn table_lookup(keys: Seq<&str>, vals: Seq<&str>, s: Seq<char>, fallback: Seq<char>) -> Seq<char> {
    match word_index(keys, s) {
        Some(k) => vals[k]@,
        None => fallback,
    }
}

} // verus!
