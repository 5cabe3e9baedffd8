//! Companion-file resolution for model bundles: metadata files, helper GGUFs, mmproj / MTP
//! selection, subfolder compatibility, duplicate metadata and model identifiers.
use vstd::prelude::*;
use crate::text::{
    matches_at, occurs_at, chars_eq, chars_of, concat_chars, concat_str, contains, contains_any, ends_with_any,
    eq_any, eq_str, equals_any, extension_of, file_name_of, file_name_or_self, has_any_sub,
    has_any_suffix, has_char, has_prefix, has_sub, has_sub_chars, lower_chars, lower_of_chars,
    lowercase, or_else, parent_of, path_extension, path_file_name, path_parent, replace_all,
    replace_str_chars, split_chars, split_on, starts_with, string_of, string_views, upper_of_chars,
    uppercase, upper_chars, views,
};
use crate::taxonomy::quantization::{quant_tier_spec, UniversalQuantization};
use crate::taxonomy::stt_families::{stt_priority_spec, SttTaxonomy};
use crate::fetch::tts_resolver::{tts_priority_spec, TtsAssetResolver};

verus! {

/// Metadata and configuration files fetched beside a model's weights.
pub const SUPPLEMENTARY_METADATA_FILES: [&'static str; 20] = [
    "config.json",
    "configuration.json",
    "generation_config.json",
    "tokenizer.json",
    "tokenizer_config.json",
    "special_tokens_map.json",
    "vocab.json",
    "tokens.txt",
    "tokens.json",
    "lexicon.txt",
    "voices.json",
    "cosyvoice.yaml",
    "chat_template.json",
    "processor_config.json",
    "preprocessor_config.json",
    "quantize_config.json",
    "model.onnx.json",
    "model.onnx.yaml",
    "speaker_embeddings.bin",
    "cluaiz-engine.ready",
];

pub const PYTORCH_EXTENSIONS: [&'static str; 4] = ["pt", "pth", "safetensors", "ckpt"];

/// mmproj precisions in order of preference.
pub const MMPROJ_PREFERENCE: [&'static str; 5] = ["f16", "bf16", "fp16", "f32", "fp32"];

pub const METADATA_ASSET_SUFFIXES: [&'static str; 7] = [
    ".json", ".txt", ".yaml", ".yml", ".onnx", ".onnx.data", ".bin",
];

pub const METADATA_ASSET_MARKERS: [&'static str; 4] = ["vocab", "merges", "token", "voices"];

pub const QUANT_FOLDER_MARKERS: [&'static str; 4] = ["q4", "int8", "fp16", "quant"];

pub const GENERIC_STEMS: [&'static str; 3] = ["model", "model_q4", "pytorch_model"];

/// Lower-cased file name of a path (the lower-cased path when it has no file name).
pub open spec fn basename_spec(p: Seq<char>) -> Seq<char> {
    lowercase(or_else(path_file_name(p), p))
}

pub open spec fn score_model_spec(category: Seq<char>, f: Seq<char>) -> usize {
    if category == "tts"@ || category == "audio"@ {
        tts_priority_spec(f)
    } else if category == "stt"@ {
        stt_priority_spec(f)
    } else {
        1
    }
}

pub open spec fn is_pytorch_spec(f: Seq<char>) -> bool {
    let ext = lowercase(or_else(path_extension(f), ""@));
    equals_any(ext, PYTORCH_EXTENSIONS@) || (ext == "bin"@ && !contains(lowercase(f), "speaker"@)
        && !contains(lowercase(f), "voices"@))
}

/// A helper GGUF of a given kind: the file name starts with `kind-` or holds `-kind-` or
/// `_kind-`.
pub open spec fn helper_named(f: Seq<char>, kind: Seq<char>) -> bool {
    let b = basename_spec(f);
    starts_with(b, kind + "-"@) || contains(b, "-"@ + kind + "-"@) || contains(b, "_"@ + kind + "-"@)
}

pub open spec fn is_mtp_spec(f: Seq<char>) -> bool {
    helper_named(f, "mtp"@) || contains(lowercase(f), "/mtp/"@)
}

pub open spec fn is_helper_spec(f: Seq<char>) -> bool {
    is_mtp_spec(f) || helper_named(f, "mmproj"@) || helper_named(f, "projector"@) || helper_named(
        f,
        "adapter"@,
    )
}

/// An ASCII lower-case letter.
pub open spec fn is_lower_letter(c: char) -> bool {
    'a' <= c && c <= 'z'
}

/// The precision `pref` occurs in `b` at `i`, at the start or after a character
/// that is not a letter.
pub open spec fn precision_at(b: Seq<char>, pref: Seq<char>, i: int) -> bool {
    occurs_at(b, pref, i) && (i == 0 || !is_lower_letter(b[i - 1]))
}

/// The precision `pref` is named in `b` as a token of its own (so `f16` is not
/// read in `bf16`).
pub open spec fn names_precision(b: Seq<char>, pref: Seq<char>) -> bool {
    exists|i: int| #[trigger] precision_at(b, pref, i)
}

/// Index of the first path whose file name names the precision `pref`.
pub open spec fn first_path_with(paths: Seq<Seq<char>>, pref: Seq<char>, j: int) -> Option<int>
    decreases paths.len() - j,
{
    if j < 0 || j >= paths.len() {
        None
    } else if names_precision(basename_spec(paths[j]), pref) {
        Some(j)
    } else {
        first_path_with(paths, pref, j + 1)
    }
}

/// Index of the preferred mmproj: the first path holding the most preferred precision,
/// else the first path.
pub open spec fn best_mmproj_from(paths: Seq<Seq<char>>, k: int) -> int
    decreases MMPROJ_PREFERENCE@.len() - k,
{
    if k < 0 || k >= MMPROJ_PREFERENCE@.len() {
        0
    } else {
        match first_path_with(paths, MMPROJ_PREFERENCE@[k]@, 0) {
            Some(j) => j,
            None => best_mmproj_from(paths, k + 1),
        }
    }
}

/// Distance between the main model's quantization tier and an MTP file's tier.
pub open spec fn mtp_distance(path: Seq<char>, main_quant: Seq<char>) -> int {
    let d = quant_tier_spec(main_quant) as int - quant_tier_spec(basename_spec(path)) as int;
    if d < 0 {
        -d
    } else {
        d
    }
}

/// Index of the first MTP file among the first `n` with the smallest tier distance.
pub open spec fn best_mtp_upto(paths: Seq<Seq<char>>, main_quant: Seq<char>, n: int) -> int
    decreases n,
{
    if n <= 1 {
        0
    } else {
        let b = best_mtp_upto(paths, main_quant, n - 1);
        if mtp_distance(paths[n - 1], main_quant) < mtp_distance(paths[b], main_quant) {
            n - 1
        } else {
            b
        }
    }
}

/// The chosen MTP file is one of the first `n`.
pub proof fn lemma_best_mtp_range(paths: Seq<Seq<char>>, main_quant: Seq<char>, n: int)
    requires
        n >= 1,
    ensures
        0 <= best_mtp_upto(paths, main_quant, n) < n,
    decreases n,
{
    if n > 1 {
        lemma_best_mtp_range(paths, main_quant, n - 1);
    }
}

pub open spec fn is_metadata_asset(meta: Seq<char>) -> bool {
    let l = lowercase(meta);
    ends_with_any(l, METADATA_ASSET_SUFFIXES@) || contains_any(l, METADATA_ASSET_MARKERS@)
}

/// Metadata compatible with a primary file: an asset that sits at the root, or whose
/// quantization-specific folder belongs to the primary file (voices folders are shared).
pub open spec fn compatible_metadata_spec(meta: Seq<char>, primary: Seq<char>) -> bool {
    let dir = or_else(path_parent(meta), ""@);
    let d = lowercase(dir);
    if !is_metadata_asset(meta) {
        false
    } else if dir.len() == 0 {
        true
    } else {
        !(contains_any(d, QUANT_FOLDER_MARKERS@) && !contains(lowercase(primary), d) && !contains(
            d,
            "voices"@,
        ))
    }
}

/// The file sits in a non-empty parent folder.
pub open spec fn in_subfolder(f: Seq<char>) -> bool {
    path_parent(f) matches Some(p) && p.len() > 0
}

/// Some file of `files` inside a subfolder has the lower-cased file name `name`.
pub open spec fn subfolder_has_name(files: Seq<Seq<char>>, name: Seq<char>) -> bool {
    exists|k: int|
        0 <= k < files.len() && in_subfolder(#[trigger] files[k]) && (path_file_name(files[k]) matches Some(
            b,
        ) && lowercase(b) == name)
}

/// A root-level file is dropped when a subfolder holds a file of the same name.
pub open spec fn keep_metadata(f: Seq<char>, all: Seq<Seq<char>>) -> bool {
    !(!in_subfolder(f) && (path_file_name(f) matches Some(b) && subfolder_has_name(
        all,
        lowercase(b),
    )))
}

/// The files of `files` that are kept, in order.
pub open spec fn kept_metadata(files: Seq<Seq<char>>, all: Seq<Seq<char>>) -> Seq<Seq<char>>
    decreases files.len(),
{
    if files.len() == 0 {
        Seq::empty()
    } else {
        let rest = kept_metadata(files.drop_last(), all);
        if keep_metadata(files.last(), all) {
            rest.push(files.last())
        } else {
            rest
        }
    }
}

/// What `kept_metadata` keeps: files of `files` that `keep_metadata` accepts, all of them.
proof fn lemma_kept_members(files: Seq<Seq<char>>, all: Seq<Seq<char>>)
    ensures
        forall|i: int| 0 <= i < kept_metadata(files, all).len() ==> files.contains(
            #[trigger] kept_metadata(files, all)[i],
        ) && keep_metadata(kept_metadata(files, all)[i], all),
        forall|j: int| 0 <= j < files.len() && keep_metadata(#[trigger] files[j], all) ==> kept_metadata(
            files,
            all,
        ).contains(files[j]),
    decreases files.len(),
{
    if files.len() > 0 {
        let t = files.drop_last();
        lemma_kept_members(t, all);
        let rest = kept_metadata(t, all);
        let k = kept_metadata(files, all);
        assert forall|i: int| 0 <= i < k.len() implies files.contains(#[trigger] k[i]) && keep_metadata(k[i], all) by {
            if i < rest.len() {
                assert(k[i] == rest[i]);
                let m = choose|m: int| 0 <= m < t.len() && t[m] == rest[i];
                assert(files[m] == t[m]);
            } else {
                assert(files[files.len() - 1] == files.last());
            }
        }
        assert forall|j: int| 0 <= j < files.len() && keep_metadata(#[trigger] files[j], all) implies k.contains(
            files[j],
        ) by {
            if j < files.len() - 1 {
                assert(t[j] == files[j]);
                let m = choose|m: int| 0 <= m < rest.len() && rest[m] == files[j];
                if keep_metadata(files.last(), all) {
                    assert(k[m] == rest[m]);
                }
            } else {
                assert(files[j] == files.last());
                assert(k[rest.len() as int] == files[j]);
            }
        }
    }
}

/// A list every file of which is kept comes back unchanged.
proof fn lemma_kept_all(s: Seq<Seq<char>>, all: Seq<Seq<char>>)
    requires
        forall|i: int| 0 <= i < s.len() ==> keep_metadata(#[trigger] s[i], all),
    ensures
        kept_metadata(s, all) == s,
    decreases s.len(),
{
    if s.len() > 0 {
        let t = s.drop_last();
        assert forall|i: int| 0 <= i < t.len() implies keep_metadata(#[trigger] t[i], all) by {
            assert(t[i] == s[i]);
        }
        lemma_kept_all(t, all);
        assert(s[s.len() - 1] == s.last());
        assert(t.push(s.last()) =~= s);
    }
}

/// Dropping duplicated root metadata twice drops nothing more: the files in
/// subfolders all stay, so the second pass finds the same duplicates gone.
pub proof fn lemma_duplicate_filter_idempotent(files: Seq<Seq<char>>)
    ensures
        kept_metadata(kept_metadata(files, files), kept_metadata(files, files)) == kept_metadata(files, files),
{
    let k = kept_metadata(files, files);
    lemma_kept_members(files, files);
    assert forall|name: Seq<char>| subfolder_has_name(k, name) == subfolder_has_name(files, name) by {
        if subfolder_has_name(k, name) {
            let i = choose|i: int|
                0 <= i < k.len() && in_subfolder(#[trigger] k[i]) && (path_file_name(k[i]) matches Some(b)
                    && lowercase(b) == name);
            let m = choose|m: int| 0 <= m < files.len() && files[m] == k[i];
            assert(in_subfolder(files[m]));
        }
        if subfolder_has_name(files, name) {
            let j = choose|j: int|
                0 <= j < files.len() && in_subfolder(#[trigger] files[j]) && (path_file_name(files[j]) matches Some(
                    b,
                ) && lowercase(b) == name);
            assert(keep_metadata(files[j], files));
            assert(k.contains(files[j]));
            let i = choose|i: int| 0 <= i < k.len() && k[i] == files[j];
            assert(in_subfolder(k[i]));
        }
    }
    assert forall|i: int| 0 <= i < k.len() implies keep_metadata(#[trigger] k[i], k) by {
        assert(keep_metadata(k[i], files));
        match path_file_name(k[i]) {
            Some(b) => {
                assert(subfolder_has_name(k, lowercase(b)) == subfolder_has_name(files, lowercase(b)));
            },
            None => {},
        }
    }
    lemma_kept_all(k, k);
}

/// The part of a repository id before the first `:`.
pub open spec fn repo_without_tag(repo_id: Seq<char>) -> Seq<char> {
    if repo_id.contains(':') {
        split_on(repo_id, seq![':'])[0]
    } else {
        repo_id
    }
}

/// Lower-cased last `/`-separated piece of the repository id.
pub open spec fn repo_basename_spec(repo_id: Seq<char>) -> Seq<char> {
    lowercase(split_on(repo_without_tag(repo_id), seq!['/']).last())
}

pub open spec fn strip_format_markers(s: Seq<char>) -> Seq<char> {
    replace_all(
        replace_all(replace_all(replace_all(s, "-gguf"@, ""@), "-onnx"@, ""@), "_gguf"@, ""@),
        "_onnx"@,
        ""@,
    )
}

/// Sovereign model identifier from repository, file stem and quantization.
pub open spec fn sovereign_id_spec(repo_id: Seq<char>, name: Seq<char>, quant: Seq<char>) -> Seq<char> {
    let base = repo_basename_spec(repo_id);
    let stem = lowercase(name);
    if equals_any(stem, GENERIC_STEMS@) || stem.len() == 0 {
        base
    } else if stem == base {
        base
    } else if contains(stem, strip_format_markers(base)) {
        if quant != "unknown"@ && quant.len() > 0 {
            if contains(uppercase(base), uppercase(quant)) {
                base
            } else {
                base + "-"@ + uppercase(quant)
            }
        } else {
            base
        }
    } else {
        base + "-"@ + stem
    }
}

proof fn lemma_first_path_with_range(paths: Seq<Seq<char>>, pref: Seq<char>, j: int)
    requires
        0 <= j,
    ensures
        first_path_with(paths, pref, j) matches Some(i) ==> j <= i < paths.len(),
    decreases paths.len() - j,
{
    if j < paths.len() && !names_precision(basename_spec(paths[j]), pref) {
        lemma_first_path_with_range(paths, pref, j + 1);
    }
}

proof fn lemma_best_mmproj_range(paths: Seq<Seq<char>>, k: int)
    requires
        0 <= k,
        paths.len() > 0,
    ensures
        0 <= best_mmproj_from(paths, k) < paths.len(),
    decreases MMPROJ_PREFERENCE@.len() - k,
{
    if k < MMPROJ_PREFERENCE@.len() {
        lemma_first_path_with_range(paths, MMPROJ_PREFERENCE@[k]@, 0);
        lemma_best_mmproj_range(paths, k + 1);
    }
}

pub struct AssetBundler;

impl AssetBundler {
    /// Metadata and configuration file names auto-fetched for a repository.
    pub fn supplementary_metadata_files() -> (r: &'static [&'static str])
        ensures
            r@ == SUPPLEMENTARY_METADATA_FILES@,
    {
        &SUPPLEMENTARY_METADATA_FILES
    }

    /// Primary-graph priority of a candidate file within its category.
    pub fn score_model_file_priority(category: &str, filename: &str) -> (r: usize)
        ensures
            r == score_model_spec(category@, filename@),
    {
        let c = chars_of(category);
        if eq_str(&c, "tts") || eq_str(&c, "audio") {
            TtsAssetResolver::score_tts_file_priority(filename)
        } else if eq_str(&c, "stt") {
            SttTaxonomy::score_stt_file_priority(filename)
        } else {
            1
        }
    }

    /// Is the file a PyTorch / raw weight file to exclude?
    pub fn is_pytorch_weights(filename: &str) -> (r: bool)
        ensures
            r == is_pytorch_spec(filename@),
    {
        let ext_raw = match extension_of(filename) {
            Some(e) => chars_of(e.as_str()),
            None => chars_of(""),
        };
        let ext = lower_of_chars(&ext_raw);
        if eq_any(&ext, &PYTORCH_EXTENSIONS) {
            return true;
        }
        let l = lower_chars(filename);
        if eq_str(&ext, "bin") && !has_sub(&l, "speaker") && !has_sub(&l, "voices") {
            return true;
        }
        false
    }

    fn helper_named_exec(filename: &str, kind: &str) -> (r: bool)
        ensures
            r == helper_named(filename@, kind@),
    {
        let b = Self::basename_chars(filename);
        let k = chars_of(kind);
        let dash = chars_of("-");
        let under = chars_of("_");
        let p1 = concat_chars(&k, &dash);
        let a = concat_chars(&dash, &k);
        let p2 = concat_chars(&a, &dash);
        let c = concat_chars(&under, &k);
        let p3 = concat_chars(&c, &dash);
        let starts = p1.len() <= b.len() && crate::text::matches_at(&b, &p1, 0);
        proof {
            if starts {
                assert(b@.subrange(0, p1@.len() as int) == p1@);
            }
        }
        starts || has_sub_chars(&b, &p2) || has_sub_chars(&b, &p3)
    }

    /// Is the file any kind of helper GGUF (MTP, mmproj, projector, adapter)?
    pub fn is_helper_gguf(filename: &str) -> (r: bool)
        ensures
            r == is_helper_spec(filename@),
    {
        Self::is_mtp_gguf(filename) || Self::is_mmproj_gguf(filename) || Self::is_projector_gguf(
            filename,
        ) || Self::is_adapter_gguf(filename)
    }

    /// Multi-token-prediction helper GGUF.
    pub fn is_mtp_gguf(filename: &str) -> (r: bool)
        ensures
            r == is_mtp_spec(filename@),
    {
        let l = lower_chars(filename);
        Self::helper_named_exec(filename, "mtp") || has_sub(&l, "/mtp/")
    }

    /// Multimodal projector helper GGUF.
    pub fn is_mmproj_gguf(filename: &str) -> (r: bool)
        ensures
            r == helper_named(filename@, "mmproj"@),
    {
        Self::helper_named_exec(filename, "mmproj")
    }

    /// Projector helper GGUF.
    pub fn is_projector_gguf(filename: &str) -> (r: bool)
        ensures
            r == helper_named(filename@, "projector"@),
    {
        Self::helper_named_exec(filename, "projector")
    }

    /// Adapter helper GGUF.
    pub fn is_adapter_gguf(filename: &str) -> (r: bool)
        ensures
            r == helper_named(filename@, "adapter"@),
    {
        Self::helper_named_exec(filename, "adapter")
    }

    fn names_precision_exec(b: &[char], pref: &str) -> (r: bool)
        ensures
            r == names_precision(b@, pref@),
    {
        let p = chars_of(pref);
        let mut i: usize = 0;
        while i < b.len()
            invariant
                p@ == pref@,
                i <= b@.len(),
                forall|k: int| 0 <= k < i ==> !#[trigger] precision_at(b@, p@, k),
            decreases b.len() - i,
        {
            if matches_at(b, &p, i) && (i == 0 || !('a' <= b[i - 1] && b[i - 1] <= 'z')) {
                assert(precision_at(b@, p@, i as int));
                return true;
            }
            i = i + 1;
        }
        let n = b.len();
        if matches_at(b, &p, n) && (n == 0 || !('a' <= b[n - 1] && b[n - 1] <= 'z')) {
            assert(precision_at(b@, p@, n as int));
            return true;
        }
        proof {
            assert forall|k: int| !#[trigger] precision_at(b@, p@, k) by {
                if precision_at(b@, p@, k) {
                    assert(0 <= k <= b@.len());
                }
            }
        }
        false
    }

    fn basename_chars(path: &str) -> (r: Vec<char>)
        ensures
            r@ == basename_spec(path@),
    {
        let n = file_name_or_self(path);
        lower_of_chars(&n)
    }

    /// Lower-cased file name of a path.
    pub fn basename_of(path: &str) -> (r: String)
        ensures
            r@ == basename_spec(path@),
    {
        let b = Self::basename_chars(path);
        string_of(&b)
    }

    /// The mmproj to download: the first naming F16, else BF16, FP16, F32, FP32, else the
    /// first file; a precision counts only as a token of its own (`bf16` does not name F16).
    pub fn select_best_mmproj<'a>(mmproj_paths: &[&'a str]) -> (r: Option<&'a str>)
        ensures
            mmproj_paths@.len() == 0 ==> r is None,
            mmproj_paths@.len() > 0 ==> r == Some(
                mmproj_paths@[best_mmproj_from(views(mmproj_paths@), 0)],
            ),
            mmproj_paths@.len() > 0 ==> 0 <= best_mmproj_from(views(mmproj_paths@), 0) < mmproj_paths@.len(),
    {
        if mmproj_paths.len() == 0 {
            return None;
        }
        proof {
            lemma_best_mmproj_range(views(mmproj_paths@), 0);
        }
        let mut k: usize = 0;
        while k < MMPROJ_PREFERENCE.len()
            invariant
                mmproj_paths@.len() > 0,
                k <= MMPROJ_PREFERENCE@.len(),
                best_mmproj_from(views(mmproj_paths@), 0) == best_mmproj_from(views(mmproj_paths@), k as int),
            decreases MMPROJ_PREFERENCE.len() - k,
        {
            let pref = MMPROJ_PREFERENCE[k];
            let mut j: usize = 0;
            while j < mmproj_paths.len()
                invariant
                    mmproj_paths@.len() > 0,
                    best_mmproj_from(views(mmproj_paths@), 0) == best_mmproj_from(views(mmproj_paths@), k as int),
                    k < MMPROJ_PREFERENCE@.len(),
                    pref == MMPROJ_PREFERENCE@[k as int],
                    j <= mmproj_paths@.len(),
                    first_path_with(views(mmproj_paths@), pref@, 0) == first_path_with(
                        views(mmproj_paths@),
                        pref@,
                        j as int,
                    ),
                decreases mmproj_paths.len() - j,
            {
                let b = Self::basename_chars(mmproj_paths[j]);
                if Self::names_precision_exec(&b, pref) {
                    return Some(mmproj_paths[j]);
                }
                j = j + 1;
            }
            k = k + 1;
        }
        Some(mmproj_paths[0])
    }

    /// The MTP file whose quantization tier is closest to the main model's (first on ties).
    pub fn select_best_mtp<'a>(mtp_paths: &[&'a str], main_quant: &str) -> (r: Option<&'a str>)
        ensures
            mtp_paths@.len() == 0 ==> r is None,
            mtp_paths@.len() > 0 ==> exists|i: int|
                0 <= i < mtp_paths@.len() && r == Some(mtp_paths@[i]) && (forall|j: int|
                    0 <= j < mtp_paths@.len() ==> mtp_distance(mtp_paths@[i]@, main_quant@)
                        <= mtp_distance(#[trigger] mtp_paths@[j]@, main_quant@)) && (forall|j: int|
                    0 <= j < i ==> mtp_distance(mtp_paths@[i]@, main_quant@) < mtp_distance(
                        #[trigger] mtp_paths@[j]@,
                        main_quant@,
                    )),
            mtp_paths@.len() > 0 ==> r == Some(
                mtp_paths@[best_mtp_upto(views(mtp_paths@), main_quant@, mtp_paths@.len() as int)],
            ),
    {
        if mtp_paths.len() == 0 {
            return None;
        }
        let main_tier = UniversalQuantization::quant_tier_of(main_quant);
        let mut best: usize = 0;
        let mut best_d: usize = Self::tier_distance(mtp_paths[0], main_tier);
        let mut j: usize = 1;
        while j < mtp_paths.len()
            invariant
                main_tier == quant_tier_spec(main_quant@),
                1 <= j <= mtp_paths@.len(),
                best < j,
                best_d == mtp_distance(mtp_paths@[best as int]@, main_quant@),
                forall|m: int| 0 <= m < j ==> best_d <= mtp_distance(#[trigger] mtp_paths@[m]@, main_quant@),
                forall|m: int| 0 <= m < best ==> best_d < mtp_distance(#[trigger] mtp_paths@[m]@, main_quant@),
                best == best_mtp_upto(views(mtp_paths@), main_quant@, j as int),
            decreases mtp_paths.len() - j,
        {
            proof {
                assert(views(mtp_paths@)[j as int] == mtp_paths@[j as int]@);
                assert(views(mtp_paths@)[best as int] == mtp_paths@[best as int]@);
            }
            let d = Self::tier_distance(mtp_paths[j], main_tier);
            if d < best_d {
                best = j;
                best_d = d;
            }
            j = j + 1;
        }
        Some(mtp_paths[best])
    }

    fn tier_distance(path: &str, main_tier: usize) -> (d: usize)
        ensures
            main_tier <= 8 ==> d == {
                let x = main_tier as int - quant_tier_spec(basename_spec(path@)) as int;
                if x < 0 { -x } else { x }
            },
    {
        let b = Self::basename_of(path);
        let t = UniversalQuantization::quant_tier_of(b.as_str());
        if main_tier >= t {
            main_tier - t
        } else {
            t - main_tier
        }
    }

    /// Is metadata from a subfolder compatible with the primary model variant?
    pub fn is_compatible_subfolder_metadata(meta_path: &str, primary_path: &str) -> (r: bool)
        ensures
            r == compatible_metadata_spec(meta_path@, primary_path@),
    {
        let lower = lower_chars(meta_path);
        let is_asset = has_any_suffix(&lower, &METADATA_ASSET_SUFFIXES) || has_any_sub(
            &lower,
            &METADATA_ASSET_MARKERS,
        );
        if !is_asset {
            return false;
        }
        let meta_dir = match parent_of(meta_path) {
            Some(p) => chars_of(p.as_str()),
            None => chars_of(""),
        };
        if meta_dir.len() == 0 {
            return true;
        }
        let d = lower_of_chars(&meta_dir);
        let pl = lower_chars(primary_path);
        if has_any_sub(&d, &QUANT_FOLDER_MARKERS) && !has_sub_chars(&pl, &d) && !has_sub(&d, "voices") {
            return false;
        }
        true
    }

    fn in_subfolder_exec(f: &str) -> (r: bool)
        ensures
            r == in_subfolder(f@),
    {
        match parent_of(f) {
            Some(p) => p.unicode_len() > 0,
            None => false,
        }
    }

    /// Drops root metadata files whose names also occur inside a subfolder of the bundle.
    pub fn filter_duplicate_metadata_files(bundle_files: &mut Vec<String>)
        ensures
            string_views(final(bundle_files)@) == kept_metadata(
                string_views(old(bundle_files)@),
                string_views(old(bundle_files)@),
            ),
    {
        let ghost all = string_views(bundle_files@);
        let mut names: Vec<Vec<char>> = Vec::new();
        let mut i: usize = 0;
        while i < bundle_files.len()
            invariant
                all == string_views(bundle_files@),
                i <= bundle_files@.len(),
                forall|name: Seq<char>|
                    (exists|m: int| 0 <= m < names@.len() && #[trigger] names@[m]@ == name)
                        <==> subfolder_has_name(all.subrange(0, i as int), name),
            decreases bundle_files.len() - i,
        {
            let f = bundle_files[i].as_str();
            proof {
                assert(all[i as int] == bundle_files@[i as int]@);
                assert forall|name: Seq<char>| subfolder_has_name(all.subrange(0, i + 1), name)
                    <==> (subfolder_has_name(all.subrange(0, i as int), name) || (in_subfolder(
                    all[i as int],
                ) && (path_file_name(all[i as int]) matches Some(b) && lowercase(b) == name))) by {
                    let s1 = all.subrange(0, i + 1);
                    let s0 = all.subrange(0, i as int);
                    if subfolder_has_name(s1, name) {
                        let k = choose|k: int|
                            0 <= k < s1.len() && in_subfolder(#[trigger] s1[k]) && (path_file_name(
                                s1[k],
                            ) matches Some(b) && lowercase(b) == name);
                        if k < i {
                            assert(s0[k] == s1[k]);
                        }
                    }
                    if subfolder_has_name(s0, name) {
                        let k = choose|k: int|
                            0 <= k < s0.len() && in_subfolder(#[trigger] s0[k]) && (path_file_name(
                                s0[k],
                            ) matches Some(b) && lowercase(b) == name);
                        assert(s1[k] == s0[k]);
                    }
                    if in_subfolder(all[i as int]) && (path_file_name(all[i as int]) matches Some(b)
                        && lowercase(b) == name) {
                        assert(s1[i as int] == all[i as int]);
                    }
                }
            }
            let ghost old_names = names@;
            let ghost mut added: Option<Seq<char>> = None;
            if Self::in_subfolder_exec(f) {
                match file_name_of(f) {
                    Some(b) => {
                        let lb = lower_chars(b.as_str());
                        proof {
                            added = Some(lb@);
                        }
                        names.push(lb);
                    },
                    None => {},
                }
            }
            proof {
                let fi = all[i as int];
                assert(added matches Some(x) ==> names@ == old_names.push(names@.last()) && names@.last()@ == x);
                assert(added is None ==> names@ == old_names);
                assert(forall|x: Seq<char>| added == Some(x) <==> (in_subfolder(fi) && (path_file_name(fi) matches Some(b) && lowercase(b) == x)));
                let ghost s1 = all.subrange(0, i + 1);
                assert forall|name: Seq<char>|
                    (exists|m: int| 0 <= m < names@.len() && #[trigger] names@[m]@ == name)
                        <==> #[trigger] subfolder_has_name(s1, name) by {
                    assert(subfolder_has_name(s1, name) <==> (subfolder_has_name(all.subrange(0, i as int), name) || added == Some(name)));
                    assert((exists|m: int| 0 <= m < old_names.len() && #[trigger] old_names[m]@ == name) <==> subfolder_has_name(all.subrange(0, i as int), name));
                    if exists|m: int| 0 <= m < names@.len() && #[trigger] names@[m]@ == name {
                        let m = choose|m: int| 0 <= m < names@.len() && #[trigger] names@[m]@ == name;
                        if m < old_names.len() {
                            assert(old_names[m] == names@[m]);
                        } else {
                            assert(added == Some(name));
                        }
                    }
                    if exists|m: int| 0 <= m < old_names.len() && #[trigger] old_names[m]@ == name {
                        let m = choose|m: int| 0 <= m < old_names.len() && #[trigger] old_names[m]@ == name;
                        assert(names@[m] == old_names[m]);
                    }
                    if added == Some(name) {
                        assert(names@[old_names.len() as int]@ == name);
                    }
                }
            }
            i = i + 1;
        }
        assert(all.subrange(0, all.len() as int) =~= all);
        let mut kept: Vec<String> = Vec::new();
        let mut j: usize = 0;
        while j < bundle_files.len()
            invariant
                all == string_views(bundle_files@),
                j <= bundle_files@.len(),
                forall|name: Seq<char>|
                    (exists|m: int| 0 <= m < names@.len() && #[trigger] names@[m]@ == name)
                        <==> subfolder_has_name(all, name),
                string_views(kept@) == kept_metadata(all.subrange(0, j as int), all),
            decreases bundle_files.len() - j,
        {
            let f = bundle_files[j].as_str();
            proof {
                assert(all[j as int] == bundle_files@[j as int]@);
                assert(all.subrange(0, j + 1).drop_last() =~= all.subrange(0, j as int));
            }
            let mut drop = false;
            if !Self::in_subfolder_exec(f) {
                match file_name_of(f) {
                    Some(b) => {
                        let lb = lower_chars(b.as_str());
                        let mut m: usize = 0;
                        while m < names.len()
                            invariant
                                m <= names@.len(),
                                drop == (exists|q: int| 0 <= q < m && #[trigger] names@[q]@ == lb@),
                            decreases names.len() - m,
                        {
                            if chars_eq(&names[m], &lb) {
                                drop = true;
                            }
                            m = m + 1;
                        }
                    },
                    None => {},
                }
            }
            if !drop {
                kept.push(bundle_files[j].clone());
            }
            proof {
                assert(string_views(kept@) =~= kept_metadata(all.subrange(0, j + 1), all));
            }
            j = j + 1;
        }
        assert(all.subrange(0, all.len() as int) =~= all);
        *bundle_files = kept;
    }

    /// Canonical sovereign model identifier.
    pub fn resolve_sovereign_id(repo_id: &str, name: &str, _filename: &str, quant: &str) -> (r: String)
        ensures
            r@ == sovereign_id_spec(repo_id@, name@, quant@),
    {
        let rc = chars_of(repo_id);
        let repo = if has_char(&rc, ':') {
            let colon = vec![':'];
            assert(colon@ =~= seq![':']);
            let parts = split_chars(&rc, &colon);
            crate::text::slice_copy(&parts[0], 0, parts[0].len())
        } else {
            rc
        };
        proof {
            assert(repo@ =~= repo_without_tag(repo_id@));
        }
        let slash = vec!['/'];
        assert(slash@ =~= seq!['/']);
        let pieces = split_chars(&repo, &slash);
        let last = &pieces[pieces.len() - 1];
        let base = lower_of_chars(last);
        let stem = lower_chars(name);
        proof {
            reveal_strlit("-gguf");
            reveal_strlit("-onnx");
            reveal_strlit("_gguf");
            reveal_strlit("_onnx");
        }
        let a = replace_str_chars(&base, "-gguf", "");
        let b = replace_str_chars(&a, "-onnx", "");
        let c = replace_str_chars(&b, "_gguf", "");
        let clean_repo = replace_str_chars(&c, "_onnx", "");
        if eq_any(&stem, &GENERIC_STEMS) || stem.len() == 0 {
            string_of(&base)
        } else if chars_eq(&stem, &base) {
            string_of(&base)
        } else if has_sub_chars(&stem, &clean_repo) {
            let q = chars_of(quant);
            if !eq_str(&q, "unknown") && q.len() > 0 {
                let qu = upper_chars(quant);
                let ru = upper_of_chars(&base);
                if has_sub_chars(&ru, &qu) {
                    string_of(&base)
                } else {
                    let t = concat_str(&base, "-");
                    string_of(&concat_chars(&t, &qu))
                }
            } else {
                string_of(&base)
            }
        } else {
            let t = concat_str(&base, "-");
            string_of(&concat_chars(&t, &stem))
        }
    }
}

} // verus!
