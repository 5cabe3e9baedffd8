//! Quantization & precision tags: shard detection, companion files, tiers.
use vstd::prelude::*;
use crate::text::{
    chars_of, contains, contains_any, drop_end, drop_end_chars, ends_with, ends_with_any, eq_any,
    eq_str, equals_any, file_name_or_self, file_stem_or_self, first_contained, first_contained_chars,
    first_found, first_found_chars, first_suffix, first_suffix_chars, has_any_suffix, has_any_sub,
    has_sub, has_sub_chars, has_suffix, is_digit, lower_chars, lower_of_chars, lowercase, opt_view,
    or_else, parent_of, path_file_name, path_file_stem, path_parent, replace_all, replace_str_chars,
    split_chars, split_on, string_of, strip_first_suffix, strip_first_suffix_chars, take_upto,
    take_upto_chars, to_upper, upper_chars, upper_of_chars, uppercase,
};

verus! {

/// Multi-part weight shard markers.
pub const SHARD_PATTERNS: [&'static str; 7] = [
    "-00001-of-",
    "_00001-of-",
    "-00001.",
    "_00001.",
    ".part1of",
    ".part01.",
    "split-00001-of-",
];

/// ONNX external-data companion suffixes.
pub const ONNX_COMPANION_SUFFIXES: [&'static str; 3] = [".onnx.data", ".onnx_data", ".data"];

/// Known quantization identifiers, most specific first.
pub const QUANT_CANDIDATES: [&'static str; 64] = [
    "IQ1_XXS", "IQ1_S", "IQ1_M",
    "IQ2_XXS", "IQ2_XS", "IQ2_S", "IQ2_M",
    "IQ3_XXS", "IQ3_XS", "IQ3_S", "IQ3_M",
    "IQ4_XS", "IQ4_NL",
    "UD-Q4_K_M", "UD-Q4_K_S", "UD-Q5_K_M", "UD-Q8_0",
    "Q2_K_S", "Q2_K",
    "Q3_K_S", "Q3_K_M", "Q3_K_L", "Q3_K",
    "Q4_K_S", "Q4_K_M", "Q4_K_L", "Q4_K", "Q4_0", "Q4_1",
    "Q5_K_S", "Q5_K_M", "Q5_K_L", "Q5_K", "Q5_0", "Q5_1",
    "Q6_K", "Q6_0",
    "Q8_0", "Q8_1", "Q8_K",
    "BF16", "FP16", "F16", "FP32", "F32",
    "FP8_E4M3", "FP8_E5M2", "FP8", "MXFP8",
    "FP6", "MXFP6",
    "FP4", "MXFP4",
    "INT8", "UINT8", "INT4", "UINT4", "BNB4", "INT2", "UINT2",
    "1.58BIT", "BITNET", "1BIT", "1-BIT",
];

/// Quantization suffixes removed from a model stem.
pub const QUANT_SUFFIXES: [&'static str; 17] = [
    "_q4", "_q4f16", "_q8f16", "_fp16", "_int8", "_int4",
    "_uint8", "_uint8f16", "_quantized", "_bnb4", "_q8", "_q2",
    ".fp32", ".int8", "-q4", "-q8", "-fp16",
];

/// Extensions that `strip_onnx_companion_suffix` removes, longest first.
pub const ONNX_STEM_SUFFIXES: [&'static str; 4] = [".onnx.data", ".onnx_data", ".onnx", ".data"];

/// Format markers that count as quantization tokens.
pub const FORMAT_TOKENS: [&'static str; 6] = ["GGUF", "ONNX", "AWQ", "GPTQ", "DEFAULT", "UNKNOWN"];

/// Weight-file extensions stripped before reading a quantization tag, in order.
pub const WEIGHT_EXTENSIONS: [&'static str; 5] = [".gguf", ".onnx", ".onnx_data", ".onnx.data", ".bin"];

/// Folder names that never carry a quantization tag.
pub const GENERIC_FOLDERS: [&'static str; 7] = [
    "onnx", "models", "weights", "chat", "embedding", "vision", "audio",
];

pub struct UniversalQuantization;

/// Lower-cased file stem with its first quantization suffix removed.
pub open spec fn strip_quant_spec(p: Seq<char>) -> Seq<char> {
    strip_first_suffix(lowercase(or_else(path_file_stem(p), p)), QUANT_SUFFIXES@)
}

/// A numbered shard marker at `i`: `-` or `_`, five digits, then `-of-` (as in
/// `-00002-of-00003`).
pub open spec fn numbered_marker_at(l: Seq<char>, i: int) -> bool {
    &&& 0 <= i && i + 10 <= l.len()
    &&& (l[i] == '-' || l[i] == '_')
    &&& is_digit(l[i + 1]) && is_digit(l[i + 2]) && is_digit(l[i + 3]) && is_digit(l[i + 4]) && is_digit(l[i + 5])
    &&& l[i + 6] == '-' && l[i + 7] == 'o' && l[i + 8] == 'f' && l[i + 9] == '-'
}

/// First numbered shard marker at or after `i`.
pub open spec fn first_numbered_marker(l: Seq<char>, i: int) -> Option<int>
    decreases l.len() - i,
{
    if i < 0 || i >= l.len() {
        None
    } else if numbered_marker_at(l, i) {
        Some(i)
    } else {
        first_numbered_marker(l, i + 1)
    }
}

/// Common prefix of a multi-part shard, any part of it: the lower-cased path up to
/// the first numbered `-NNNNN-of-` marker, else up to the first of the other shard
/// markers.
pub open spec fn shard_base_spec(p: Seq<char>) -> Option<Seq<char>> {
    let l = lowercase(p);
    match first_numbered_marker(l, 0) {
        Some(i) => Some(take_upto(l, i)),
        None => match first_found(l, SHARD_PATTERNS@) {
            Some(i) => Some(take_upto(l, i)),
            None => None,
        },
    }
}

/// The path with its ONNX model / external-data extension removed.
pub open spec fn strip_onnx_spec(p: Seq<char>) -> Seq<char> {
    match first_suffix(lowercase(p), ONNX_STEM_SUFFIXES@) {
        Some(k) => drop_end(p, ONNX_STEM_SUFFIXES@[k]@.len() as int),
        None => p,
    }
}

proof fn lemma_plain_tail(t: Seq<char>)
    requires
        forall|i: int| 0 <= i < t.len() ==> ('a' <= #[trigger] t[i] <= 'z' || t[i] == '.' || t[i] == '_'),
    ensures
        crate::text::is_ascii_text(t),
        crate::text::ascii_lower(t) == t,
{
    assert(crate::text::ascii_lower(t) =~= t);
}

/// A name ending with `.onnx`, `.onnx.data` or `.onnx_data` loses exactly that
/// ending when stripped, whatever the rest of it holds; `l` is its lower-cased
/// form, which ends with every ASCII tail of the name lower-cased.
proof fn lemma_strip_known_suffix(p: Seq<char>, l: Seq<char>)
    requires
        l == lowercase(p),
        crate::text::keeps_ascii_tails(p, l),
    ensures
        ends_with(p, ".onnx"@) ==> strip_onnx_spec(p) == drop_end(p, 5),
        ends_with(p, ".onnx.data"@) ==> strip_onnx_spec(p) == drop_end(p, 10),
        ends_with(p, ".onnx_data"@) ==> strip_onnx_spec(p) == drop_end(p, 10),
{
    reveal_strlit(".onnx");
    reveal_strlit(".onnx.data");
    reveal_strlit(".onnx_data");
    reveal_strlit(".data");
    let a = ".onnx"@;
    let b = ".onnx.data"@;
    let c = ".onnx_data"@;
    let sufs = ONNX_STEM_SUFFIXES@;
    assert(sufs[0]@ == b && sufs[1]@ == c && sufs[2]@ == a);
    let n = p.len() as int;
    let ln = l.len() as int;
    if ends_with(p, a) {
        let t = crate::text::tail_from(p, n - 5);
        assert(t =~= a);
        lemma_plain_tail(a);
        assert(ends_with(l, a));
        assert(l.subrange(ln - 5, ln)[4] == l[ln - 1]);
        assert(l[ln - 1] == 'x');
        assert(!ends_with(l, b)) by {
            if ends_with(l, b) {
                assert(l.subrange(ln - 10, ln)[9] == l[ln - 1]);
            }
        }
        assert(!ends_with(l, c)) by {
            if ends_with(l, c) {
                assert(l.subrange(ln - 10, ln)[9] == l[ln - 1]);
            }
        }
        assert(crate::text::first_suffix_from(l, sufs, 2) == Some(2int));
        assert(crate::text::first_suffix_from(l, sufs, 1) == Some(2int));
        assert(crate::text::first_suffix_from(l, sufs, 0) == Some(2int));
    }
    if ends_with(p, b) {
        let t = crate::text::tail_from(p, n - 10);
        assert(t =~= b);
        lemma_plain_tail(b);
        assert(ends_with(l, b));
        assert(crate::text::first_suffix_from(l, sufs, 0) == Some(0int));
    }
    if ends_with(p, c) {
        let t = crate::text::tail_from(p, n - 10);
        assert(t =~= c);
        lemma_plain_tail(c);
        assert(ends_with(l, c));
        assert(!ends_with(l, b)) by {
            assert(b[5] != c[5]);
        }
        assert(crate::text::first_suffix_from(l, sufs, 1) == Some(1int));
        assert(crate::text::first_suffix_from(l, sufs, 0) == Some(1int));
    }
}

/// Quantization / format indicator token.
pub open spec fn is_quant_token_spec(token: Seq<char>) -> bool {
    let u = uppercase(token);
    u.len() > 0 && (contains_any(u, QUANT_CANDIDATES@) || (u.len() >= 2 && u[0] == 'Q' && is_digit(
        u[1],
    )) || equals_any(u, FORMAT_TOKENS@))
}

/// A name piece that can be a parameter count: not part of the quantization tag, not a
/// quantization token, ending in `b` and starting with a digit or holding an `x`.
pub open spec fn is_param_part(part: Seq<char>, quant_tag: Seq<char>) -> bool {
    let skip = (quant_tag.len() > 0 && contains(uppercase(quant_tag), uppercase(part)))
        || is_quant_token_spec(part);
    !skip && part.len() > 0 && part.last() == 'b' && (is_digit(part[0]) || part.contains('x'))
}

pub open spec fn first_param_part_from(parts: Seq<Seq<char>>, quant_tag: Seq<char>, k: int) -> Option<
    Seq<char>,
>
    decreases parts.len() - k,
{
    if k < 0 || k >= parts.len() {
        None
    } else if is_param_part(parts[k], quant_tag) {
        Some(parts[k])
    } else {
        first_param_part_from(parts, quant_tag, k + 1)
    }
}

/// A separator of name pieces: `-`, `_`, or a `.` that is not a decimal point
/// (one between two digits, as in `1.5b`).
pub open spec fn is_name_sep(s: Seq<char>, i: int) -> bool {
    s[i] == '-' || s[i] == '_' || (s[i] == '.' && !(0 < i && i + 1 < s.len() && is_digit(s[i - 1])
        && is_digit(s[i + 1])))
}

/// The pieces of the first `n` characters of `s` between name separators.
pub open spec fn name_pieces(s: Seq<char>, n: int) -> Seq<Seq<char>>
    decreases n,
{
    if n <= 0 {
        seq![Seq::<char>::empty()]
    } else {
        let rest = name_pieces(s, n - 1);
        if is_name_sep(s, n - 1) {
            rest.push(Seq::<char>::empty())
        } else {
            rest.update(rest.len() - 1, rest.last().push(s[n - 1]))
        }
    }
}

/// Lower-cased name without its weight extensions, split on `-`, `_` and on `.`
/// where it is not a decimal point.
pub open spec fn name_parts(name: Seq<char>) -> Seq<Seq<char>> {
    let clean = replace_all(
        replace_all(replace_all(lowercase(name), ".gguf"@, ""@), ".onnx"@, ""@),
        ".bin"@,
        ""@,
    );
    name_pieces(clean, clean.len() as int)
}

/// Upper-cased first parameter-count piece of the name, or `Unknown`.
pub open spec fn parameters_spec(name: Seq<char>, quant_tag: Seq<char>) -> Seq<char> {
    match first_param_part_from(name_parts(name), quant_tag, 0) {
        Some(part) => uppercase(part),
        None => "Unknown"@,
    }
}

/// Names the parent folder of a path as a quantization folder (e.g. `Q4_K_M/`).
pub open spec fn is_quant_folder(parent: Seq<char>) -> bool {
    let l = lowercase(parent);
    parent.len() > 0 && parent != "."@ && !equals_any(l, GENERIC_FOLDERS@) && (l.contains('q')
        || contains(l, "bf16"@) || contains(l, "fp16"@) || contains(l, "int"@) || contains(
        l,
        "ud"@,
    ))
}

/// File name with the weight extensions of `WEIGHT_EXTENSIONS` (from index `k` on) removed in
/// turn, each compared case-insensitively.
pub open spec fn strip_extensions_from(name: Seq<char>, k: int) -> Seq<char>
    decreases WEIGHT_EXTENSIONS@.len() - k,
{
    if k < 0 || k >= WEIGHT_EXTENSIONS@.len() {
        name
    } else {
        let next = if ends_with(lowercase(name), WEIGHT_EXTENSIONS@[k]@) {
            drop_end(name, WEIGHT_EXTENSIONS@[k]@.len() as int)
        } else {
            name
        };
        strip_extensions_from(next, k + 1)
    }
}

/// File name without weight extensions and without a shard suffix.
pub open spec fn clean_weight_name(path: Seq<char>) -> Seq<char> {
    let stripped = strip_extensions_from(or_else(path_file_name(path), path), 0);
    match first_found(lowercase(stripped), SHARD_PATTERNS@) {
        Some(i) => take_upto(stripped, i),
        None => stripped,
    }
}

/// The quantization tag of a weight path: a quantization folder name, else the first known
/// candidate inside the cleaned file name, else the format (`ONNX` / `GGUF`).
pub open spec fn quant_tag_spec(path: Seq<char>) -> Seq<char> {
    let parent = or_else(path_parent(path), Seq::<char>::empty());
    if path_parent(path) is Some && is_quant_folder(parent) {
        uppercase(parent)
    } else {
        match first_contained(uppercase(clean_weight_name(path)), QUANT_CANDIDATES@) {
            Some(k) => QUANT_CANDIDATES@[k]@,
            None => if ends_with(lowercase(path), ".onnx"@) {
                "ONNX"@
            } else {
                "GGUF"@
            },
        }
    }
}

/// A weight inside a quantization-named folder takes that folder's name as its tag:
/// when the parent folder is a real name (not empty, not `.`, not one of the generic
/// folders) whose lower-cased form holds a `q` or one of `bf16`, `fp16`, `int`,
/// `ud`, the tag is the folder name upper-cased, whatever the file is called.
pub proof fn lemma_quant_folder_gives_tag(path: Seq<char>, folder: Seq<char>)
    requires
        path_parent(path) == Some(folder),
        folder.len() > 0,
        folder != "."@,
        forall|i: int| 0 <= i < GENERIC_FOLDERS@.len() ==> lowercase(folder) != #[trigger] GENERIC_FOLDERS@[i]@,
        lowercase(folder).contains('q') || contains(lowercase(folder), "bf16"@) || contains(
            lowercase(folder),
            "fp16"@,
        ) || contains(lowercase(folder), "int"@) || contains(lowercase(folder), "ud"@),
    ensures
        quant_tag_spec(path) == uppercase(folder),
{
    assert(!equals_any(lowercase(folder), GENERIC_FOLDERS@));
}

/// Quality tier 0..=8 of a quantization tag.
pub open spec fn quant_tier_spec(q: Seq<char>) -> usize {
    let l = lowercase(q);
    if contains(l, "f32"@) || contains(l, "fp32"@) {
        8
    } else if contains(l, "f16"@) || contains(l, "bf16"@) || contains(l, "fp16"@) {
        7
    } else if contains(l, "q8"@) || contains(l, "int8"@) || contains(l, "fp8"@) {
        6
    } else if contains(l, "q6"@) || contains(l, "fp6"@) {
        5
    } else if contains(l, "q5"@) {
        4
    } else if contains(l, "q4"@) || contains(l, "iq4"@) || contains(l, "ud-q4"@) || contains(
        l,
        "int4"@,
    ) {
        3
    } else if contains(l, "q3"@) || contains(l, "iq3"@) {
        2
    } else if contains(l, "q2"@) || contains(l, "iq2"@) || contains(l, "iq1"@) || contains(
        l,
        "1.58"@,
    ) || contains(l, "1bit"@) {
        1
    } else {
        0
    }
}

impl UniversalQuantization {
    /// Normalized model base stem: lower-cased file stem without a quantization suffix.
    pub fn strip_quant(p: &str) -> (r: String)
        ensures
            r@ == strip_quant_spec(p@),
    {
        let stem = file_stem_or_self(p);
        let lower = lower_of_chars(&stem);
        let stripped = strip_first_suffix_chars(&lower, &QUANT_SUFFIXES);
        string_of(&stripped)
    }

    fn numbered_marker(l: &[char], i: usize) -> (r: bool)
        ensures
            r == numbered_marker_at(l@, i as int),
    {
        if i >= l.len() || l.len() - i < 10 {
            return false;
        }
        (l[i] == '-' || l[i] == '_') && '0' <= l[i + 1] && l[i + 1] <= '9' && '0' <= l[i + 2] && l[i + 2] <= '9'
            && '0' <= l[i + 3] && l[i + 3] <= '9' && '0' <= l[i + 4] && l[i + 4] <= '9' && '0' <= l[i + 5]
            && l[i + 5] <= '9' && l[i + 6] == '-' && l[i + 7] == 'o' && l[i + 8] == 'f' && l[i + 9] == '-'
    }

    /// Common base-name prefix of a multi-part shard, any part of it, if the path is one.
    pub fn extract_shard_base(path_str: &str) -> (r: Option<String>)
        ensures
            opt_view(r) == shard_base_spec(path_str@),
    {
        let lower = lower_chars(path_str);
        let mut i: usize = 0;
        while i < lower.len()
            invariant
                lower@ == lowercase(path_str@),
                i <= lower@.len(),
                first_numbered_marker(lower@, 0) == first_numbered_marker(lower@, i as int),
            decreases lower.len() - i,
        {
            if Self::numbered_marker(&lower, i) {
                return Some(string_of(&take_upto_chars(&lower, i)));
            }
            i = i + 1;
        }
        match first_found_chars(&lower, &SHARD_PATTERNS) {
            Some(pos) => Some(string_of(&take_upto_chars(&lower, pos))),
            None => None,
        }
    }

    /// Canonical ONNX model stem: the path without `.onnx`, `.onnx.data`, `.onnx_data` or `.data`
    /// (found case-insensitively).  A path ending with `.onnx`, `.onnx.data` or
    /// `.onnx_data` gives back exactly what precedes that ending, in its own case.
    pub fn strip_onnx_companion_suffix(path_str: &str) -> (r: String)
        ensures
            r@ == strip_onnx_spec(path_str@),
            ends_with(path_str@, ".onnx"@) ==> r@ == drop_end(path_str@, 5),
            ends_with(path_str@, ".onnx.data"@) ==> r@ == drop_end(path_str@, 10),
            ends_with(path_str@, ".onnx_data"@) ==> r@ == drop_end(path_str@, 10),
    {
        let lower = lower_chars(path_str);
        proof {
            lemma_strip_known_suffix(path_str@, lower@);
        }
        let p = chars_of(path_str);
        match first_suffix_chars(&lower, &ONNX_STEM_SUFFIXES) {
            Some(k) => {
                let n = ONNX_STEM_SUFFIXES[k].unicode_len();
                string_of(&drop_end_chars(&p, n))
            },
            None => path_str.to_string(),
        }
    }

    /// Is the path an ONNX external-data companion file?
    pub fn is_onnx_companion_file(path_str: &str) -> (r: bool)
        ensures
            r == ends_with_any(lowercase(path_str@), ONNX_COMPANION_SUFFIXES@),
    {
        let lower = lower_chars(path_str);
        has_any_suffix(&lower, &ONNX_COMPANION_SUFFIXES)
    }

    /// Is the token a quantization or format indicator?
    pub fn is_quant_token(token: &str) -> (r: bool)
        ensures
            r == is_quant_token_spec(token@),
    {
        let upper = upper_chars(token);
        if upper.len() == 0 {
            return false;
        }
        if has_any_sub(&upper, &QUANT_CANDIDATES) {
            return true;
        }
        if upper.len() >= 2 && upper[0] == 'Q' && '0' <= upper[1] && upper[1] <= '9' {
            return true;
        }
        eq_any(&upper, &FORMAT_TOKENS)
    }

    fn is_quant_token_chars(part: &[char]) -> (r: bool)
        ensures
            r == is_quant_token_spec(part@),
    {
        let s = string_of(part);
        Self::is_quant_token(s.as_str())
    }

    fn split_name_pieces(s: &[char]) -> (r: Vec<Vec<char>>)
        ensures
            r@.len() == name_pieces(s@, s@.len() as int).len(),
            forall|k: int| 0 <= k < r@.len() ==> #[trigger] r@[k]@ == name_pieces(s@, s@.len() as int)[k],
    {
        let mut r: Vec<Vec<char>> = Vec::new();
        let mut cur: Vec<char> = Vec::new();
        let mut i: usize = 0;
        while i < s.len()
            invariant
                i <= s@.len(),
                name_pieces(s@, i as int).len() == r@.len() + 1,
                forall|k: int| 0 <= k < r@.len() ==> #[trigger] r@[k]@ == name_pieces(s@, i as int)[k],
                cur@ == name_pieces(s@, i as int).last(),
            decreases s.len() - i,
        {
            let c = s[i];
            let sep = c == '-' || c == '_' || (c == '.' && !(i > 0 && i + 1 < s.len() && '0' <= s[i - 1]
                && s[i - 1] <= '9' && '0' <= s[i + 1] && s[i + 1] <= '9'));
            assert(sep == is_name_sep(s@, i as int));
            if sep {
                r.push(cur);
                cur = Vec::new();
            } else {
                cur.push(c);
            }
            i = i + 1;
        }
        r.push(cur);
        r
    }

    /// Parameter count (e.g. `7B`, `8X7B`, `1.5B`) read from a model name, or `Unknown`.
    pub fn extract_parameters_from_name(name_str: &str, quant_tag: &str) -> (r: String)
        ensures
            r@ == parameters_spec(name_str@, quant_tag@),
    {
        let lower = lower_chars(name_str);
        proof {
            reveal_strlit(".gguf");
            reveal_strlit(".onnx");
            reveal_strlit(".bin");
        }
        let a = replace_str_chars(&lower, ".gguf", "");
        let b = replace_str_chars(&a, ".onnx", "");
        let clean = replace_str_chars(&b, ".bin", "");
        let parts = Self::split_name_pieces(&clean);
        let ghost gparts = name_parts(name_str@);
        let qt_upper = upper_chars(quant_tag);
        let qt_empty = quant_tag.unicode_len() == 0;
        let mut k: usize = 0;
        while k < parts.len()
            invariant
                gparts == name_parts(name_str@),
                parts@.len() == gparts.len(),
                forall|j: int| 0 <= j < parts@.len() ==> #[trigger] parts@[j]@ == gparts[j],
                qt_upper@ == uppercase(quant_tag@),
                qt_empty == (quant_tag@.len() == 0),
                k <= parts@.len(),
                first_param_part_from(gparts, quant_tag@, 0) == first_param_part_from(
                    gparts,
                    quant_tag@,
                    k as int,
                ),
            decreases parts.len() - k,
        {
            let part = &parts[k];
            let part_upper = upper_of_chars(part);
            let in_tag = !qt_empty && has_sub_chars(&qt_upper, &part_upper);
            let skip = in_tag || Self::is_quant_token_chars(part);
            if !skip && part.len() > 0 && part[part.len() - 1] == 'b' {
                let first_digit = '0' <= part[0] && part[0] <= '9';
                let mut has_x = false;
                let mut i: usize = 0;
                while i < part.len()
                    invariant
                        i <= part@.len(),
                        has_x == (exists|j: int| 0 <= j < i && part@[j] == 'x'),
                    decreases part.len() - i,
                {
                    if part[i] == 'x' {
                        has_x = true;
                    }
                    i = i + 1;
                }
                assert(has_x == part@.contains('x'));
                if first_digit || has_x {
                    return string_of(&part_upper);
                }
            }
            k = k + 1;
        }
        "Unknown".to_string()
    }

    /// Normalized quantization tag of a weight path or name.
    pub fn extract_quant_tag(path_str: &str) -> (r: String)
        ensures
            r@ == quant_tag_spec(path_str@),
    {
        match parent_of(path_str) {
            Some(parent) => {
                let pc = chars_of(parent.as_str());
                let l = lower_chars(parent.as_str());
                let is_dot = eq_str(&pc, ".");
                if pc.len() > 0 && !is_dot && !eq_any(&l, &GENERIC_FOLDERS) {
                    let mut has_q = false;
                    let mut i: usize = 0;
                    while i < l.len()
                        invariant
                            i <= l@.len(),
                            has_q == (exists|j: int| 0 <= j < i && l@[j] == 'q'),
                        decreases l.len() - i,
                    {
                        if l[i] == 'q' {
                            has_q = true;
                        }
                        i = i + 1;
                    }
                    assert(has_q == l@.contains('q'));
                    if has_q || has_sub(&l, "bf16") || has_sub(&l, "fp16") || has_sub(&l, "int")
                        || has_sub(&l, "ud") {
                        return to_upper(parent.as_str());
                    }
                }
            },
            None => {},
        }
        let mut clean = file_name_or_self(path_str);
        let mut k: usize = 0;
        let ghost name0 = or_else(path_file_name(path_str@), path_str@);
        while k < WEIGHT_EXTENSIONS.len()
            invariant
                k <= WEIGHT_EXTENSIONS@.len(),
                strip_extensions_from(name0, 0) == strip_extensions_from(clean@, k as int),
            decreases WEIGHT_EXTENSIONS.len() - k,
        {
            let lc = lower_of_chars(&clean);
            if has_suffix(&lc, WEIGHT_EXTENSIONS[k]) {
                let n = WEIGHT_EXTENSIONS[k].unicode_len();
                clean = drop_end_chars(&clean, n);
            }
            k = k + 1;
        }
        let lc = lower_of_chars(&clean);
        let cleaned = match first_found_chars(&lc, &SHARD_PATTERNS) {
            Some(i) => take_upto_chars(&clean, i),
            None => clean,
        };
        let upper = upper_of_chars(&cleaned);
        match first_contained_chars(&upper, &QUANT_CANDIDATES) {
            Some(k) => QUANT_CANDIDATES[k].to_string(),
            None => {
                let lp = lower_chars(path_str);
                if has_suffix(&lp, ".onnx") {
                    "ONNX".to_string()
                } else {
                    "GGUF".to_string()
                }
            },
        }
    }

    /// Quality tier 0..=8 of a quantization tag (8 = full precision).
    pub fn quant_tier_of(quant: &str) -> (r: usize)
        ensures
            r == quant_tier_spec(quant@),
    {
        let q = lower_chars(quant);
        if has_sub(&q, "f32") || has_sub(&q, "fp32") {
            8
        } else if has_sub(&q, "f16") || has_sub(&q, "bf16") || has_sub(&q, "fp16") {
            7
        } else if has_sub(&q, "q8") || has_sub(&q, "int8") || has_sub(&q, "fp8") {
            6
        } else if has_sub(&q, "q6") || has_sub(&q, "fp6") {
            5
        } else if has_sub(&q, "q5") {
            4
        } else if has_sub(&q, "q4") || has_sub(&q, "iq4") || has_sub(&q, "ud-q4") || has_sub(
            &q,
            "int4",
        ) {
            3
        } else if has_sub(&q, "q3") || has_sub(&q, "iq3") {
            2
        } else if has_sub(&q, "q2") || has_sub(&q, "iq2") || has_sub(&q, "iq1") || has_sub(
            &q,
            "1.58",
        ) || has_sub(&q, "1bit") {
            1
        } else {
            0
        }
    }

    /// Canonical format of a weight path: `onnx` for `.onnx` files, `gguf` otherwise.
    pub fn resolve_format_type(path: &str) -> (r: &'static str)
        ensures
            r@ == if ends_with(lowercase(path@), ".onnx"@) {
                "onnx"@
            } else {
                "gguf"@
            },
    {
        let l = lower_chars(path);
        if has_suffix(&l, ".onnx") {
            "onnx"
        } else {
            "gguf"
        }
    }

    /// Does the path point at an executable weight binary (`.gguf` or `.onnx`)?
    pub fn is_executable_weight_file(path: &str) -> (r: bool)
        ensures
            r == (ends_with(lowercase(path@), ".gguf"@) || ends_with(lowercase(path@), ".onnx"@)),
    {
        let l = lower_chars(path);
        has_suffix(&l, ".gguf") || has_suffix(&l, ".onnx")
    }
}

} // verus!
