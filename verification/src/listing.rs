//! A model directory as plain values (entry names and sizes, plus the few
//! existence facts the package contracts consult), and the grouping of its
//! files by extension that both the speech and the synthesis contracts use.
use vstd::prelude::*;
use crate::text::{contains_any, ends_with, has_any_sub, has_suffix, lower_chars, lowercase};

verus! {

/// One entry of a model directory.
pub struct DirEntry {
    /// The entry's file name as listed.
    pub name: String,
    /// Byte size of the file at the lower-cased name, 0 when no such file exists.
    pub size: u64,
}

/// What the package contracts read from a model directory.
pub struct DirListing {
    /// Entries of the directory, in listing order.
    pub entries: Vec<DirEntry>,
    /// File names inside its `voices/` subdirectory (empty when there is none).
    pub voices: Vec<String>,
    /// `tokens.txt` exists in the directory.
    pub has_tokens_txt: bool,
    /// `lexicon.txt` exists in the directory.
    pub has_lexicon_txt: bool,
    /// `model.onnx.data` exists in the directory.
    pub has_model_onnx_data: bool,
    /// `am.mvn` exists in the directory.
    pub has_am_mvn: bool,
}

/// The group a file falls into by its extension.
#[derive(Debug, Clone, Copy, PartialEq, Eq, Structural)]
pub enum FileGroup {
    Onnx,
    Weights,
    Config,
    Data,
    Other,
}

/// Lower-cased names of the entries.
pub open spec fn lowered_names(es: Seq<DirEntry>) -> Seq<Seq<char>> {
    Seq::new(es.len(), |i: int| lowercase(es[i].name@))
}

/// Views of a sequence of character vectors.
pub open spec fn vviews(v: Seq<Vec<char>>) -> Seq<Seq<char>> {
    Seq::new(v.len(), |i: int| v[i]@)
}

/// Group of a lower-cased file name.  The speech listing (`stt`) also groups
/// `.gguf` / `.bin` weights and counts `.yml` / `.txt` as configuration.
pub open spec fn group_of(n: Seq<char>, stt: bool) -> FileGroup {
    if ends_with(n, ".onnx"@) {
        FileGroup::Onnx
    } else if stt && (ends_with(n, ".gguf"@) || ends_with(n, ".bin"@)) {
        FileGroup::Weights
    } else if ends_with(n, ".json"@) || ends_with(n, ".yaml"@) || (stt && (ends_with(n, ".yml"@)
        || ends_with(n, ".txt"@))) {
        FileGroup::Config
    } else if ends_with(n, ".onnx.data"@) || ends_with(n, ".data"@) {
        FileGroup::Data
    } else {
        FileGroup::Other
    }
}

/// Entry `k` is in group `g` and, unless `pats` is empty, contains one of `pats`.
pub open spec fn picks(names: Seq<Seq<char>>, stt: bool, g: FileGroup, pats: Seq<&str>, k: int) -> bool {
    group_of(names[k], stt) == g && (pats.len() == 0 || contains_any(names[k], pats))
}

/// First entry at or after `k` that `picks` selects.
pub open spec fn first_pick_from(
    names: Seq<Seq<char>>,
    stt: bool,
    g: FileGroup,
    pats: Seq<&str>,
    k: int,
) -> Option<int>
    decreases names.len() - k,
{
    if k < 0 || k >= names.len() {
        None
    } else if picks(names, stt, g, pats, k) {
        Some(k)
    } else {
        first_pick_from(names, stt, g, pats, k + 1)
    }
}

/// First entry in group `g` containing one of `pats` (any entry of the group when `pats` is empty).
pub open spec fn first_pick(names: Seq<Seq<char>>, stt: bool, g: FileGroup, pats: Seq<&str>) -> Option<int> {
    first_pick_from(names, stt, g, pats, 0)
}

/// Some entry of group `g` contains one of `pats` (or exists, when `pats` is empty).
pub open spec fn any_pick(names: Seq<Seq<char>>, stt: bool, g: FileGroup, pats: Seq<&str>) -> bool {
    first_pick(names, stt, g, pats) is Some
}

pub proof fn lemma_first_pick_from(names: Seq<Seq<char>>, stt: bool, g: FileGroup, pats: Seq<&str>, k: int)
    requires
        0 <= k <= names.len(),
    ensures
        match first_pick_from(names, stt, g, pats, k) {
            Some(i) => k <= i < names.len() && picks(names, stt, g, pats, i) && forall|j: int|
                k <= j < i ==> !#[trigger] picks(names, stt, g, pats, j),
            None => forall|j: int| k <= j < names.len() ==> !#[trigger] picks(names, stt, g, pats, j),
        },
    decreases names.len() - k,
{
    if k < names.len() {
        lemma_first_pick_from(names, stt, g, pats, k + 1);
    }
}

/// Group of a lower-cased file name.
pub fn group_of_name(n: &[char], stt: bool) -> (r: FileGroup)
    ensures
        r == group_of(n@, stt),
{
    if has_suffix(n, ".onnx") {
        FileGroup::Onnx
    } else if stt && (has_suffix(n, ".gguf") || has_suffix(n, ".bin")) {
        FileGroup::Weights
    } else if has_suffix(n, ".json") || has_suffix(n, ".yaml") || (stt && (has_suffix(n, ".yml")
        || has_suffix(n, ".txt"))) {
        FileGroup::Config
    } else if has_suffix(n, ".onnx.data") || has_suffix(n, ".data") {
        FileGroup::Data
    } else {
        FileGroup::Other
    }
}

/// Lower-cased names of the listing's entries.
pub fn lowered_entry_names(l: &DirListing) -> (r: Vec<Vec<char>>)
    ensures
        vviews(r@) == lowered_names(l.entries@),
{
    let mut r: Vec<Vec<char>> = Vec::new();
    let mut i: usize = 0;
    while i < l.entries.len()
        invariant
            i <= l.entries@.len(),
            r@.len() == i,
            forall|j: int| 0 <= j < i ==> #[trigger] r@[j]@ == lowercase(l.entries@[j].name@),
        decreases l.entries.len() - i,
    {
        let n = lower_chars(l.entries[i].name.as_str());
        r.push(n);
        i = i + 1;
    }
    assert(vviews(r@) =~= lowered_names(l.entries@));
    r
}

/// First entry in group `g` containing one of `pats` (any entry of the group when `pats` is empty).
pub fn first_pick_of(names: &Vec<Vec<char>>, stt: bool, g: FileGroup, pats: &[&str]) -> (r: Option<usize>)
    ensures
        match r {
            Some(i) => first_pick(vviews(names@), stt, g, pats@) == Some(i as int),
            None => first_pick(vviews(names@), stt, g, pats@) is None,
        },
{
    let ghost v = vviews(names@);
    let mut k: usize = 0;
    while k < names.len()
        invariant
            v == vviews(names@),
            k <= names@.len(),
            first_pick(v, stt, g, pats@) == first_pick_from(v, stt, g, pats@, k as int),
        decreases names.len() - k,
    {
        assert(v[k as int] == names@[k as int]@);
        let gk = group_of_name(&names[k], stt);
        if gk == g && (pats.len() == 0 || has_any_sub(&names[k], pats)) {
            return Some(k);
        }
        k = k + 1;
    }
    None
}

/// Some entry of group `g` contains one of `pats` (or exists, when `pats` is empty).
pub fn any_pick_of(names: &Vec<Vec<char>>, stt: bool, g: FileGroup, pats: &[&str]) -> (r: bool)
    ensures
        r == any_pick(vviews(names@), stt, g, pats@),
{
    first_pick_of(names, stt, g, pats).is_some()
}

} // verus!
