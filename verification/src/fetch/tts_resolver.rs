//! Text-to-speech asset resolution: asset recognition, quantization siblings, scale
//! isolation, sub-stage detection, file priority and family detection.
use vstd::prelude::*;
use crate::text::{
    chars_eq, contains, contains_any, ends_with_any, equals_any, eq_any, file_stem_or_self,
    has_any_suffix, has_any_sub, has_sub, lower_base, lower_basename, lower_chars,
    lower_of_chars, lowercase, or_else, parent_or_empty, path_file_stem, path_parent, split_chars,
    split_on, string_of, strip_first_suffix, strip_first_suffix_chars, eq_str, chars_of,
    concat_str, ends_with_any as ends_with_any_spec,
};
use crate::listing::{
    any_pick, any_pick_of, first_pick, first_pick_of, lowered_entry_names, lowered_names, vviews,
    DirListing, FileGroup,
};

verus! {

pub const TTS_ASSET_SUFFIXES: [&'static str; 8] = [
    ".bin",
    ".onnx.json",
    ".onnx.yaml",
    "tokens.txt",
    "lexicon.txt",
    "voices.json",
    "tts.json",
    "unicode_indexer.json",
];

pub const TTS_ASSET_MARKERS: [&'static str; 3] = ["voices/", "voice_styles/", "espeak-ng-data"];

pub const TTS_QUANT_SUFFIXES: [&'static str; 14] = [
    "_q4", "_q4f16", "_q8f16", "_fp16", "_int8", "_int4",
    "_uint8", "_uint8f16", "_quantized", "_bnb4", "_q8", "_q2",
    ".fp32", ".int8",
];

pub const SCALE_DIRS: [&'static str; 8] = [
    "base", "base_small", "base_large", "small", "medium", "large", "custom", "custom_small",
];

pub const TTS_SUBCOMPONENT_MARKERS: [&'static str; 13] = [
    "denoiser",
    "duration_predictor",
    "vector_estimator",
    "vector_context_encoder",
    "vocoder_adapter",
    "vocoder_b",
    "speech_tokenizer",
    "speaker_encoder",
    "campplus",
    "hifigan",
    "hift",
    "istftnet2",
    "codec_decoder",
];

pub const TTS_ENTRYPOINT_MARKERS: [&'static str; 5] = [
    "acoustic", "backbone", "model.onnx", "model_", "kokoro",
];

pub const TTS_PRIMARY_MARKERS: [&'static str; 9] = [
    "slow_ar", "llm_decoder", "speech_llm", "flow", "estimator", "generator", "acoustic", "synth",
    "matcha",
];

pub const TTS_PRIMARY_NAMES: [&'static str; 4] = [
    "model.onnx", "model_q4.onnx", "kokoro-82m.onnx", "text_encoder.onnx",
];

pub const TTS_SECONDARY_MARKERS: [&'static str; 5] = [
    "duration_predictor", "vector_estimator", "fast_ar", "decoder", "encoder",
];

pub const TTS_VOCODER_MARKERS: [&'static str; 5] = [
    "vocoder", "hifigan", "hift", "codec_decoder", "audio_codec",
];

pub const TTS_SPEAKER_MARKERS: [&'static str; 3] = ["campplus", "speaker", "embed"];

pub open spec fn is_tts_asset_spec(f: Seq<char>) -> bool {
    let n = lowercase(f);
    contains(n, "voices/"@) || ends_with_any(n, TTS_ASSET_SUFFIXES@) || contains(
        n,
        "voice_styles/"@,
    ) || contains(n, "espeak-ng-data"@)
}

/// Lower-cased file stem without a quantization suffix.
pub open spec fn tts_strip_quant_spec(p: Seq<char>) -> Seq<char> {
    strip_first_suffix(lowercase(or_else(path_file_stem(p), p)), TTS_QUANT_SUFFIXES@)
}

pub open spec fn parent_dir(p: Seq<char>) -> Seq<char> {
    or_else(path_parent(p), Seq::<char>::empty())
}

/// Same directory, same stem once quantization suffixes are removed, different paths.
pub open spec fn same_model_different_quant_spec(a: Seq<char>, b: Seq<char>) -> bool {
    parent_dir(a) == parent_dir(b) && tts_strip_quant_spec(a) == tts_strip_quant_spec(b) && a != b
}

/// Lower-cased first `/`-separated piece of `p` (from index `k` on) that names a scale folder.
pub open spec fn scale_from(parts: Seq<Seq<char>>, k: int) -> Option<Seq<char>>
    decreases parts.len() - k,
{
    if k < 0 || k >= parts.len() {
        None
    } else if equals_any(lowercase(parts[k]), SCALE_DIRS@) {
        Some(lowercase(parts[k]))
    } else {
        scale_from(parts, k + 1)
    }
}

pub open spec fn scale_of(p: Seq<char>) -> Option<Seq<char>> {
    scale_from(split_on(p, seq!['/']), 0)
}

pub open spec fn scale_mismatch_spec(a: Seq<char>, b: Seq<char>) -> bool {
    scale_of(a) is Some && scale_of(b) is Some && scale_of(a) != scale_of(b)
}

pub open spec fn is_tts_subcomponent_spec(f: Seq<char>) -> bool {
    contains_any(lower_base(f), TTS_SUBCOMPONENT_MARKERS@)
}

pub open spec fn is_tts_entrypoint_spec(f: Seq<char>) -> bool {
    !is_tts_subcomponent_spec(f) || contains_any(lower_base(f), TTS_ENTRYPOINT_MARKERS@)
}

/// 0 = primary graph, 1 = sub-graph / encoder, 2 = vocoder, 3 = speaker helper.
pub open spec fn tts_priority_spec(f: Seq<char>) -> usize {
    let b = lower_base(f);
    if contains_any(b, TTS_PRIMARY_MARKERS@) || equals_any(b, TTS_PRIMARY_NAMES@) {
        0
    } else if contains_any(b, TTS_SECONDARY_MARKERS@) {
        1
    } else if contains_any(b, TTS_VOCODER_MARKERS@) {
        2
    } else if contains_any(b, TTS_SPEAKER_MARKERS@) {
        3
    } else {
        1
    }
}

/// TTS family tag from the identifier and file listing, first matching rule wins.
pub open spec fn tts_family_spec(ident: Seq<char>, files_content: Seq<char>) -> Seq<char> {
    let lower = lowercase(ident);
    let files = lowercase(files_content);
    if contains(lower, "kokoro"@) || contains(files, "kokoro"@) || contains(files, "voices/"@) {
        "kokoro-v1"@
    } else if contains(lower, "supertonic"@) || contains(files, "vector_estimator"@) || contains(
        files,
        "duration_predictor"@,
    ) {
        "supertonic-v3"@
    } else if contains(lower, "matcha"@) || contains(files, "matcha_acoustic"@) || contains(
        files,
        "matxa"@,
    ) {
        "matcha-v1"@
    } else if contains(lower, "cosyvoice"@) || contains(files, "campplus"@) || contains(
        files,
        "speech_llm"@,
    ) {
        "cosyvoice"@
    } else if contains(lower, "audio8"@) || contains(files, "slow_ar"@) || contains(
        files,
        "fast_ar"@,
    ) {
        "audio8-codec"@
    } else if contains(lower, "chatterbox"@) || contains(files, "chatterbox_generator"@) {
        "chatterbox"@
    } else if contains(lower, "omnivoice"@) || contains(files, "genai_config"@) {
        "omnivoice"@
    } else if contains(lower, "vits"@) || contains(lower, "piper"@) || contains(lower, "mms-tts"@)
        || contains(files, "phonemes.json"@) {
        "piper-vits"@
    } else if contains(lower, "whisper"@) {
        "whisper-gguf"@
    } else {
        "generic-onnx-tts"@
    }
}

/// An identifier that names Piper, VITS or MMS-TTS (or a listing with a
/// `phonemes.json`) is read as the Piper/VITS family, unless an earlier-ranked
/// family (Kokoro, Supertonic, Matcha, CosyVoice, Audio8, Chatterbox, OmniVoice)
/// claims it first: never as Whisper or as a generic ONNX voice.
pub proof fn lemma_piper_names_piper_family(ident: Seq<char>, files_content: Seq<char>)
    requires
        contains(lowercase(ident), "piper"@) || contains(lowercase(ident), "vits"@) || contains(
            lowercase(ident),
            "mms-tts"@,
        ) || contains(lowercase(files_content), "phonemes.json"@),
    ensures
        ({
            let r = tts_family_spec(ident, files_content);
            r == "piper-vits"@ || r == "kokoro-v1"@ || r == "supertonic-v3"@ || r == "matcha-v1"@
                || r == "cosyvoice"@ || r == "audio8-codec"@ || r == "chatterbox"@ || r == "omnivoice"@
        }),
{
}

/// A family is only named when one of its own markers shows: each earlier-ranked
/// family than Piper/VITS needs its name in the identifier or its files in the
/// listing.  With the law above, an identifier naming Piper and nothing of an
/// earlier family is read as Piper/VITS.
pub proof fn lemma_family_needs_its_marker(ident: Seq<char>, files_content: Seq<char>)
    ensures
        ({
            let r = tts_family_spec(ident, files_content);
            let l = lowercase(ident);
            let f = lowercase(files_content);
            &&& r == "kokoro-v1"@ ==> contains(l, "kokoro"@) || contains(f, "kokoro"@) || contains(f, "voices/"@)
            &&& r == "supertonic-v3"@ ==> contains(l, "supertonic"@) || contains(f, "vector_estimator"@)
                || contains(f, "duration_predictor"@)
            &&& r == "matcha-v1"@ ==> contains(l, "matcha"@) || contains(f, "matcha_acoustic"@) || contains(f, "matxa"@)
            &&& r == "cosyvoice"@ ==> contains(l, "cosyvoice"@) || contains(f, "campplus"@) || contains(f, "speech_llm"@)
            &&& r == "audio8-codec"@ ==> contains(l, "audio8"@) || contains(f, "slow_ar"@) || contains(f, "fast_ar"@)
            &&& r == "chatterbox"@ ==> contains(l, "chatterbox"@) || contains(f, "chatterbox_generator"@)
            &&& r == "omnivoice"@ ==> contains(l, "omnivoice"@) || contains(f, "genai_config"@)
        }),
{
    reveal_strlit("kokoro-v1");
    reveal_strlit("supertonic-v3");
    reveal_strlit("matcha-v1");
    reveal_strlit("cosyvoice");
    reveal_strlit("audio8-codec");
    reveal_strlit("chatterbox");
    reveal_strlit("omnivoice");
    reveal_strlit("piper-vits");
    reveal_strlit("whisper-gguf");
    reveal_strlit("generic-onnx-tts");
    assert("kokoro-v1"@[0] != "supertonic-v3"@[0]);
    assert("kokoro-v1"@[0] != "matcha-v1"@[0]);
    assert("kokoro-v1"@[0] != "cosyvoice"@[0]);
    assert("kokoro-v1"@[0] != "audio8-codec"@[0]);
    assert("kokoro-v1"@[0] != "chatterbox"@[0]);
    assert("kokoro-v1"@[0] != "omnivoice"@[0]);
    assert("kokoro-v1"@[0] != "piper-vits"@[0]);
    assert("kokoro-v1"@[0] != "whisper-gguf"@[0]);
    assert("kokoro-v1"@[0] != "generic-onnx-tts"@[0]);
    assert("supertonic-v3"@[0] != "matcha-v1"@[0]);
    assert("supertonic-v3"@[0] != "cosyvoice"@[0]);
    assert("supertonic-v3"@[0] != "audio8-codec"@[0]);
    assert("supertonic-v3"@[0] != "chatterbox"@[0]);
    assert("supertonic-v3"@[0] != "omnivoice"@[0]);
    assert("supertonic-v3"@[0] != "piper-vits"@[0]);
    assert("supertonic-v3"@[0] != "whisper-gguf"@[0]);
    assert("supertonic-v3"@[0] != "generic-onnx-tts"@[0]);
    assert("matcha-v1"@[0] != "cosyvoice"@[0]);
    assert("matcha-v1"@[0] != "audio8-codec"@[0]);
    assert("matcha-v1"@[0] != "chatterbox"@[0]);
    assert("matcha-v1"@[0] != "omnivoice"@[0]);
    assert("matcha-v1"@[0] != "piper-vits"@[0]);
    assert("matcha-v1"@[0] != "whisper-gguf"@[0]);
    assert("matcha-v1"@[0] != "generic-onnx-tts"@[0]);
    assert("cosyvoice"@[0] != "audio8-codec"@[0]);
    assert("cosyvoice"@.len() != "chatterbox"@.len());
    assert("cosyvoice"@[0] != "omnivoice"@[0]);
    assert("cosyvoice"@[0] != "piper-vits"@[0]);
    assert("cosyvoice"@[0] != "whisper-gguf"@[0]);
    assert("cosyvoice"@[0] != "generic-onnx-tts"@[0]);
    assert("audio8-codec"@[0] != "chatterbox"@[0]);
    assert("audio8-codec"@[0] != "omnivoice"@[0]);
    assert("audio8-codec"@[0] != "piper-vits"@[0]);
    assert("audio8-codec"@[0] != "whisper-gguf"@[0]);
    assert("audio8-codec"@[0] != "generic-onnx-tts"@[0]);
    assert("chatterbox"@[0] != "omnivoice"@[0]);
    assert("chatterbox"@[0] != "piper-vits"@[0]);
    assert("chatterbox"@[0] != "whisper-gguf"@[0]);
    assert("chatterbox"@[0] != "generic-onnx-tts"@[0]);
    assert("omnivoice"@[0] != "piper-vits"@[0]);
    assert("omnivoice"@[0] != "whisper-gguf"@[0]);
    assert("omnivoice"@[0] != "generic-onnx-tts"@[0]);
    assert("piper-vits"@[0] != "whisper-gguf"@[0]);
    assert("piper-vits"@[0] != "generic-onnx-tts"@[0]);
    assert("whisper-gguf"@[0] != "generic-onnx-tts"@[0]);
}

pub struct TtsAssetResolver;

impl TtsAssetResolver {
    /// Is the file a TTS asset, config or voice payload?
    pub fn is_tts_asset(filename: &str) -> (r: bool)
        ensures
            r == is_tts_asset_spec(filename@),
    {
        let name = lower_chars(filename);
        has_sub(&name, "voices/") || has_any_suffix(&name, &TTS_ASSET_SUFFIXES) || has_sub(
            &name,
            "voice_styles/",
        ) || has_sub(&name, "espeak-ng-data")
    }

    /// Normalized model base name: lower-cased stem without a quantization suffix.
    pub fn strip_quant(p: &str) -> (r: String)
        ensures
            r@ == tts_strip_quant_spec(p@),
    {
        let stem = file_stem_or_self(p);
        let lower = lower_of_chars(&stem);
        string_of(&strip_first_suffix_chars(&lower, &TTS_QUANT_SUFFIXES))
    }

    /// Are the two paths the same model graph under different quantizations?
    pub fn is_same_model_different_quant(path_a: &str, path_b: &str) -> (r: bool)
        ensures
            r == same_model_different_quant_spec(path_a@, path_b@),
    {
        let dir_a = parent_or_empty(path_a);
        let dir_b = parent_or_empty(path_b);
        if !chars_eq(&dir_a, &dir_b) {
            return false;
        }
        let base_a = Self::strip_quant(path_a);
        let base_b = Self::strip_quant(path_b);
        let ca = crate::text::chars_of(base_a.as_str());
        let cb = crate::text::chars_of(base_b.as_str());
        let pa = crate::text::chars_of(path_a);
        let pb = crate::text::chars_of(path_b);
        chars_eq(&ca, &cb) && !chars_eq(&pa, &pb)
    }

    fn scale_of_path(p: &str) -> (r: Option<Vec<char>>)
        ensures
            match r {
                Some(v) => scale_of(p@) == Some(v@),
                None => scale_of(p@) is None,
            },
    {
        let pc = crate::text::chars_of(p);
        let seps = vec!['/'];
        assert(seps@ =~= seq!['/']);
        let parts = split_chars(&pc, &seps);
        let ghost gp = split_on(p@, seq!['/']);
        let mut k: usize = 0;
        while k < parts.len()
            invariant
                parts@.len() == gp.len(),
                gp == split_on(p@, seq!['/']),
                forall|j: int| 0 <= j < parts@.len() ==> #[trigger] parts@[j]@ == gp[j],
                k <= parts@.len(),
                scale_of(p@) == scale_from(gp, k as int),
            decreases parts.len() - k,
        {
            let l = lower_of_chars(&parts[k]);
            if eq_any(&l, &SCALE_DIRS) {
                return Some(l);
            }
            k = k + 1;
        }
        None
    }

    /// Do the two paths sit in different architecture-scale folders (e.g. `base/` vs `small/`)?
    pub fn is_scale_mismatch(path_a: &str, path_b: &str) -> (r: bool)
        ensures
            r == scale_mismatch_spec(path_a@, path_b@),
    {
        let a = Self::scale_of_path(path_a);
        let b = Self::scale_of_path(path_b);
        match (a, b) {
            (Some(x), Some(y)) => !chars_eq(&x, &y),
            _ => false,
        }
    }

    /// Is the file a sub-stage (vocoder, denoiser, duration predictor, ...) that cannot
    /// stand alone?
    pub fn is_subcomponent_file(filename: &str) -> (r: bool)
        ensures
            r == is_tts_subcomponent_spec(filename@),
    {
        let b = lower_basename(filename);
        has_any_sub(&b, &TTS_SUBCOMPONENT_MARKERS)
    }

    /// Can the file anchor a TTS variant bundle?
    pub fn is_primary_entrypoint(filename: &str) -> (r: bool)
        ensures
            r == is_tts_entrypoint_spec(filename@),
    {
        let b = lower_basename(filename);
        !Self::is_subcomponent_file(filename) || has_any_sub(&b, &TTS_ENTRYPOINT_MARKERS)
    }

    /// Priority of a candidate TTS file (0 = primary graph first).
    pub fn score_tts_file_priority(filename: &str) -> (r: usize)
        ensures
            r == tts_priority_spec(filename@),
    {
        let b = lower_basename(filename);
        if has_any_sub(&b, &TTS_PRIMARY_MARKERS) || eq_any(&b, &TTS_PRIMARY_NAMES) {
            0
        } else if has_any_sub(&b, &TTS_SECONDARY_MARKERS) {
            1
        } else if has_any_sub(&b, &TTS_VOCODER_MARKERS) {
            2
        } else if has_any_sub(&b, &TTS_SPEAKER_MARKERS) {
            3
        } else {
            1
        }
    }

    /// TTS family tag from an identifier and a listing of its files.
    pub fn detect_tts_family(ident: &str, files_content: &str) -> (r: &'static str)
        ensures
            r@ == tts_family_spec(ident@, files_content@),
    {
        let lower = lower_chars(ident);
        let files = lower_chars(files_content);
        if has_sub(&lower, "kokoro") || has_sub(&files, "kokoro") || has_sub(&files, "voices/") {
            "kokoro-v1"
        } else if has_sub(&lower, "supertonic") || has_sub(&files, "vector_estimator") || has_sub(
            &files,
            "duration_predictor",
        ) {
            "supertonic-v3"
        } else if has_sub(&lower, "matcha") || has_sub(&files, "matcha_acoustic") || has_sub(
            &files,
            "matxa",
        ) {
            "matcha-v1"
        } else if has_sub(&lower, "cosyvoice") || has_sub(&files, "campplus") || has_sub(
            &files,
            "speech_llm",
        ) {
            "cosyvoice"
        } else if has_sub(&lower, "audio8") || has_sub(&files, "slow_ar") || has_sub(
            &files,
            "fast_ar",
        ) {
            "audio8-codec"
        } else if has_sub(&lower, "chatterbox") || has_sub(&files, "chatterbox_generator") {
            "chatterbox"
        } else if has_sub(&lower, "omnivoice") || has_sub(&files, "genai_config") {
            "omnivoice"
        } else if has_sub(&lower, "vits") || has_sub(&lower, "piper") || has_sub(&lower, "mms-tts")
            || has_sub(&files, "phonemes.json") {
            "piper-vits"
        } else if has_sub(&lower, "whisper") {
            "whisper-gguf"
        } else {
            "generic-onnx-tts"
        }
    }
}


// ───────────────────────── package contracts ─────────────────────────

/// A graph larger than this needs an external `.data` weight file.
pub const DATA_COMPANION_LIMIT: u64 = 1_800_000_000;

pub const ANY_NAME: [&'static str; 0] = [];

pub const KOKORO_GRAPH: [&'static str; 2] = ["kokoro", "model"];
pub const KOKORO_CONFIG: [&'static str; 1] = ["config"];
pub const KOKORO_TOKENIZER: [&'static str; 3] = ["tokenizer", "vocab", "tokens"];
pub const VOICE_STYLE_SUFFIXES: [&'static str; 3] = [".bin", ".json", ".pt"];
pub const SUPERTONIC_TEXT_ENCODER: [&'static str; 2] = ["text_encoder", "encoder"];
pub const SUPERTONIC_DURATION: [&'static str; 2] = ["duration_predictor", "duration"];
pub const SUPERTONIC_ESTIMATOR: [&'static str; 3] = ["vector_estimator", "estimator", "denoiser"];
pub const SUPERTONIC_VOCODER: [&'static str; 3] = ["vocoder", "hift", "decoder"];
pub const MATCHA_ACOUSTIC: [&'static str; 5] = ["matcha", "acoustic", "estimator", "flow", "matxa"];
pub const MATCHA_VOCODER: [&'static str; 3] = ["hifigan", "vocoder", "wavenext"];
pub const CONFIG_OR_TOKENS: [&'static str; 5] = ["config", "tokens", "phonemes", "vocab", "meta"];
pub const AUDIO8_GENERATOR: [&'static str; 2] = ["slow_ar", "generator"];
pub const AUDIO8_CODEC: [&'static str; 3] = ["codec_decoder", "decoder", "vocoder"];
pub const COSYVOICE_LLM: [&'static str; 2] = ["speech_llm", "llm"];
pub const COSYVOICE_FLOW: [&'static str; 1] = ["flow"];
pub const COSYVOICE_COMBINED: [&'static str; 1] = ["combined"];
pub const CHATTERBOX_GENERATOR: [&'static str; 4] = [
    "chatterbox", "generator", "decoder", "language_model",
];
pub const CHATTERBOX_CODEC: [&'static str; 3] = ["codec", "speech_encoder", "embed"];
pub const OMNIVOICE_CONFIG: [&'static str; 2] = ["genai_config", "config"];

/// Why a downloaded TTS package breaks its family's contract.
#[derive(Debug, Clone, Copy, PartialEq, Eq, Structural)]
pub enum TtsContractViolation {
    /// The graph at this entry index is over the limit and no `.data` file is present.
    OversizedGraph(usize),
    KokoroMissingGraph,
    KokoroMissingConfig,
    KokoroMissingVoices,
    SupertonicMissingStage,
    MatchaMissingStage,
    PiperMissingFiles,
    Audio8MissingStage,
    CosyVoiceMissingStage,
    ChatterboxMissingStage,
    OmniVoiceMissingData,
    GenericMissingGraph,
    GenericMissingConfig,
}

/// Graph `k` is over the limit while the directory holds no `.data` file at all.
pub open spec fn oversized(l: DirListing, names: Seq<Seq<char>>, k: int) -> bool {
    !any_pick(names, false, FileGroup::Data, ANY_NAME@) && l.entries@[k].size > DATA_COMPANION_LIMIT
}

/// The external-weights check on graph `k`, then `rest`.
pub open spec fn companion_then(
    l: DirListing,
    names: Seq<Seq<char>>,
    k: int,
    rest: Option<TtsContractViolation>,
) -> Option<TtsContractViolation> {
    if oversized(l, names, k) {
        Some(TtsContractViolation::OversizedGraph(k as usize))
    } else {
        rest
    }
}

/// The `voices/` folder holds a style vector.
pub open spec fn voices_present(v: Seq<String>) -> bool {
    exists|i: int| 0 <= i < v.len() && ends_with_any_spec(lowercase(#[trigger] v[i]@), VOICE_STYLE_SUFFIXES@)
}

/// Configuration or token metadata is present.
pub open spec fn config_or_tokens(l: DirListing, names: Seq<Seq<char>>) -> bool {
    any_pick(names, false, FileGroup::Config, CONFIG_OR_TOKENS@) || l.has_tokens_txt || l.has_lexicon_txt
}

pub open spec fn onnx_with(names: Seq<Seq<char>>, pats: Seq<&str>) -> Option<int> {
    first_pick(names, false, FileGroup::Onnx, pats)
}

/// The first contract violation of a TTS package of family `family`, if any.
pub open spec fn tts_violation(family: Seq<char>, l: DirListing) -> Option<TtsContractViolation> {
    let n = lowered_names(l.entries@);
    if family == "kokoro-v1"@ {
        match onnx_with(n, KOKORO_GRAPH@) {
            None => Some(TtsContractViolation::KokoroMissingGraph),
            Some(k) => companion_then(
                l,
                n,
                k,
                if !any_pick(n, false, FileGroup::Config, KOKORO_CONFIG@) || !any_pick(
                    n,
                    false,
                    FileGroup::Config,
                    KOKORO_TOKENIZER@,
                ) {
                    Some(TtsContractViolation::KokoroMissingConfig)
                } else if !voices_present(l.voices@) {
                    Some(TtsContractViolation::KokoroMissingVoices)
                } else {
                    None
                },
            ),
        }
    } else if family == "supertonic-v3"@ {
        if onnx_with(n, SUPERTONIC_TEXT_ENCODER@) is None || onnx_with(n, SUPERTONIC_DURATION@) is None
            || onnx_with(n, SUPERTONIC_ESTIMATOR@) is None || onnx_with(n, SUPERTONIC_VOCODER@) is None {
            Some(TtsContractViolation::SupertonicMissingStage)
        } else {
            companion_then(l, n, onnx_with(n, SUPERTONIC_ESTIMATOR@)->0, None)
        }
    } else if family == "matcha-v1"@ {
        if onnx_with(n, MATCHA_ACOUSTIC@) is None || onnx_with(n, MATCHA_VOCODER@) is None {
            Some(TtsContractViolation::MatchaMissingStage)
        } else {
            companion_then(l, n, onnx_with(n, MATCHA_ACOUSTIC@)->0, None)
        }
    } else if family == "piper-vits"@ {
        if onnx_with(n, ANY_NAME@) is None || !config_or_tokens(l, n) {
            Some(TtsContractViolation::PiperMissingFiles)
        } else {
            companion_then(l, n, onnx_with(n, ANY_NAME@)->0, None)
        }
    } else if family == "audio8-codec"@ {
        if onnx_with(n, AUDIO8_GENERATOR@) is None || onnx_with(n, AUDIO8_CODEC@) is None {
            Some(TtsContractViolation::Audio8MissingStage)
        } else {
            companion_then(l, n, onnx_with(n, AUDIO8_GENERATOR@)->0, None)
        }
    } else if family == "cosyvoice"@ {
        match onnx_with(n, COSYVOICE_LLM@) {
            Some(k) => companion_then(l, n, k, None),
            None => if onnx_with(n, COSYVOICE_COMBINED@) is None && onnx_with(n, COSYVOICE_FLOW@) is None {
                Some(TtsContractViolation::CosyVoiceMissingStage)
            } else {
                None
            },
        }
    } else if family == "chatterbox"@ {
        if onnx_with(n, CHATTERBOX_GENERATOR@) is None || onnx_with(n, CHATTERBOX_CODEC@) is None {
            Some(TtsContractViolation::ChatterboxMissingStage)
        } else {
            None
        }
    } else if family == "omnivoice"@ {
        if !(l.has_model_onnx_data || any_pick(n, false, FileGroup::Data, ANY_NAME@)) || !any_pick(
            n,
            false,
            FileGroup::Config,
            OMNIVOICE_CONFIG@,
        ) {
            Some(TtsContractViolation::OmniVoiceMissingData)
        } else {
            None
        }
    } else if onnx_with(n, ANY_NAME@) is None {
        Some(TtsContractViolation::GenericMissingGraph)
    } else if !config_or_tokens(l, n) {
        Some(TtsContractViolation::GenericMissingConfig)
    } else {
        None
    }
}

/// The message reported for a violation; `names` are the lower-cased entry names.
pub open spec fn tts_violation_message(v: TtsContractViolation, names: Seq<Seq<char>>) -> Seq<char> {
    match v {
        TtsContractViolation::OversizedGraph(k) => "ONNX Weight Pointer Exception: '"@ + names[k as int]
            + "' is >1.8GB but companion '.onnx.data' weight file is missing!"@,
        TtsContractViolation::KokoroMissingGraph => "Kokoro Contract Violation: Missing primary ONNX model graph (*kokoro*.onnx or model*.onnx)."@,
        TtsContractViolation::KokoroMissingConfig => "Kokoro Contract Violation: Missing config.json or tokenizer.json / vocab.json."@,
        TtsContractViolation::KokoroMissingVoices => "Kokoro Contract Violation: 'voices/' directory is missing or empty! Style vectors (.bin / .json) are required."@,
        TtsContractViolation::SupertonicMissingStage => "Supertonic Contract Violation: Missing 1 or more of the 4 mandatory sub-graphs (text_encoder, duration_predictor, vector_estimator, vocoder)."@,
        TtsContractViolation::MatchaMissingStage => "Matcha-TTS Contract Violation: Missing acoustic flow estimator or HiFi-GAN neural vocoder sub-graph."@,
        TtsContractViolation::PiperMissingFiles => "Piper/VITS Contract Violation: Missing primary model.onnx or config/tokens metadata."@,
        TtsContractViolation::Audio8MissingStage => "Audio8 Contract Violation: Missing slow_ar generator or codec_decoder FP16 neural vocoder."@,
        TtsContractViolation::CosyVoiceMissingStage => "CosyVoice Contract Violation: Missing speech_llm, flow_model/hift_vocoder, or campplus speaker extractor."@,
        TtsContractViolation::ChatterboxMissingStage => "Chatterbox Contract Violation: Missing semantic generator or audio codec sub-graph."@,
        TtsContractViolation::OmniVoiceMissingData => "OmniVoice Contract Violation: Missing mandatory model.onnx.data external weights file or genai_config.json."@,
        TtsContractViolation::GenericMissingGraph => "Generic ONNX TTS Contract Violation: Missing primary .onnx graph file."@,
        TtsContractViolation::GenericMissingConfig => "Generic ONNX TTS Contract Violation: Missing configuration JSON or tokens metadata file."@,
    }
}

impl TtsAssetResolver {
    fn has_voice_styles(v: &Vec<String>) -> (r: bool)
        ensures
            r == voices_present(v@),
    {
        let mut i: usize = 0;
        while i < v.len()
            invariant
                i <= v@.len(),
                forall|j: int| 0 <= j < i ==> !ends_with_any_spec(lowercase(#[trigger] v@[j]@), VOICE_STYLE_SUFFIXES@),
            decreases v.len() - i,
        {
            let n = lower_chars(v[i].as_str());
            if has_any_suffix(&n, &VOICE_STYLE_SUFFIXES) {
                return true;
            }
            i = i + 1;
        }
        false
    }

    fn check_companion(
        l: &DirListing,
        names: &Vec<Vec<char>>,
        k: usize,
        rest: Option<TtsContractViolation>,
    ) -> (r: Option<TtsContractViolation>)
        requires
            k < l.entries@.len(),
            !(rest matches Some(TtsContractViolation::OversizedGraph(_))),
        ensures
            r == companion_then(*l, vviews(names@), k as int, rest),
            r matches Some(TtsContractViolation::OversizedGraph(j)) ==> j < l.entries@.len(),
    {
        if !any_pick_of(names, false, FileGroup::Data, &ANY_NAME) && l.entries[k].size > DATA_COMPANION_LIMIT {
            Some(TtsContractViolation::OversizedGraph(k))
        } else {
            rest
        }
    }

    fn package_violation(family: &str, l: &DirListing, names: &Vec<Vec<char>>) -> (r: Option<TtsContractViolation>)
        requires
            vviews(names@) == lowered_names(l.entries@),
        ensures
            r == tts_violation(family@, *l),
            r matches Some(TtsContractViolation::OversizedGraph(j)) ==> j < l.entries@.len(),
    {
        let ghost n = vviews(names@);
        proof {
            assert(n.len() == l.entries@.len());
        }
        let fam = chars_of(family);
        if eq_str(&fam, "kokoro-v1") {
            match first_pick_of(names, false, FileGroup::Onnx, &KOKORO_GRAPH) {
                None => Some(TtsContractViolation::KokoroMissingGraph),
                Some(k) => {
                    proof { crate::listing::lemma_first_pick_from(n, false, FileGroup::Onnx, KOKORO_GRAPH@, 0); }
                    let rest = if !any_pick_of(names, false, FileGroup::Config, &KOKORO_CONFIG) || !any_pick_of(
                        names,
                        false,
                        FileGroup::Config,
                        &KOKORO_TOKENIZER,
                    ) {
                        Some(TtsContractViolation::KokoroMissingConfig)
                    } else if !Self::has_voice_styles(&l.voices) {
                        Some(TtsContractViolation::KokoroMissingVoices)
                    } else {
                        None
                    };
                    Self::check_companion(l, names, k, rest)
                },
            }
        } else if eq_str(&fam, "supertonic-v3") {
            let t = first_pick_of(names, false, FileGroup::Onnx, &SUPERTONIC_TEXT_ENCODER);
            let d = first_pick_of(names, false, FileGroup::Onnx, &SUPERTONIC_DURATION);
            let e = first_pick_of(names, false, FileGroup::Onnx, &SUPERTONIC_ESTIMATOR);
            let v = first_pick_of(names, false, FileGroup::Onnx, &SUPERTONIC_VOCODER);
            if t.is_none() || d.is_none() || e.is_none() || v.is_none() {
                Some(TtsContractViolation::SupertonicMissingStage)
            } else {
                let k = e.unwrap();
                proof { crate::listing::lemma_first_pick_from(n, false, FileGroup::Onnx, SUPERTONIC_ESTIMATOR@, 0); }
                Self::check_companion(l, names, k, None)
            }
        } else if eq_str(&fam, "matcha-v1") {
            let a = first_pick_of(names, false, FileGroup::Onnx, &MATCHA_ACOUSTIC);
            let v = first_pick_of(names, false, FileGroup::Onnx, &MATCHA_VOCODER);
            if a.is_none() || v.is_none() {
                Some(TtsContractViolation::MatchaMissingStage)
            } else {
                let k = a.unwrap();
                proof { crate::listing::lemma_first_pick_from(n, false, FileGroup::Onnx, MATCHA_ACOUSTIC@, 0); }
                Self::check_companion(l, names, k, None)
            }
        } else if eq_str(&fam, "piper-vits") {
            let first = first_pick_of(names, false, FileGroup::Onnx, &ANY_NAME);
            let meta = any_pick_of(names, false, FileGroup::Config, &CONFIG_OR_TOKENS) || l.has_tokens_txt
                || l.has_lexicon_txt;
            if first.is_none() || !meta {
                Some(TtsContractViolation::PiperMissingFiles)
            } else {
                let k = first.unwrap();
                proof { crate::listing::lemma_first_pick_from(n, false, FileGroup::Onnx, ANY_NAME@, 0); }
                Self::check_companion(l, names, k, None)
            }
        } else if eq_str(&fam, "audio8-codec") {
            let g = first_pick_of(names, false, FileGroup::Onnx, &AUDIO8_GENERATOR);
            let c = first_pick_of(names, false, FileGroup::Onnx, &AUDIO8_CODEC);
            if g.is_none() || c.is_none() {
                Some(TtsContractViolation::Audio8MissingStage)
            } else {
                let k = g.unwrap();
                proof { crate::listing::lemma_first_pick_from(n, false, FileGroup::Onnx, AUDIO8_GENERATOR@, 0); }
                Self::check_companion(l, names, k, None)
            }
        } else if eq_str(&fam, "cosyvoice") {
            match first_pick_of(names, false, FileGroup::Onnx, &COSYVOICE_LLM) {
                Some(k) => {
                    proof { crate::listing::lemma_first_pick_from(n, false, FileGroup::Onnx, COSYVOICE_LLM@, 0); }
                    Self::check_companion(l, names, k, None)
                },
                None => {
                    if !any_pick_of(names, false, FileGroup::Onnx, &COSYVOICE_COMBINED) && !any_pick_of(
                        names,
                        false,
                        FileGroup::Onnx,
                        &COSYVOICE_FLOW,
                    ) {
                        Some(TtsContractViolation::CosyVoiceMissingStage)
                    } else {
                        None
                    }
                },
            }
        } else if eq_str(&fam, "chatterbox") {
            if !any_pick_of(names, false, FileGroup::Onnx, &CHATTERBOX_GENERATOR) || !any_pick_of(
                names,
                false,
                FileGroup::Onnx,
                &CHATTERBOX_CODEC,
            ) {
                Some(TtsContractViolation::ChatterboxMissingStage)
            } else {
                None
            }
        } else if eq_str(&fam, "omnivoice") {
            let has_data = l.has_model_onnx_data || any_pick_of(names, false, FileGroup::Data, &ANY_NAME);
            let has_config = any_pick_of(names, false, FileGroup::Config, &OMNIVOICE_CONFIG);
            if !has_data || !has_config {
                Some(TtsContractViolation::OmniVoiceMissingData)
            } else {
                None
            }
        } else if !any_pick_of(names, false, FileGroup::Onnx, &ANY_NAME) {
            Some(TtsContractViolation::GenericMissingGraph)
        } else if !(any_pick_of(names, false, FileGroup::Config, &CONFIG_OR_TOKENS) || l.has_tokens_txt
            || l.has_lexicon_txt) {
            Some(TtsContractViolation::GenericMissingConfig)
        } else {
            None
        }
    }

    /// The message reported for a contract violation.
    pub fn violation_message(v: TtsContractViolation, names: &Vec<Vec<char>>) -> (r: String)
        requires
            v matches TtsContractViolation::OversizedGraph(k) ==> k < names@.len(),
        ensures
            r@ == tts_violation_message(v, vviews(names@)),
    {
        let text: &str = match v {
            TtsContractViolation::OversizedGraph(k) => {
                let a = chars_of("ONNX Weight Pointer Exception: '");
                let b = crate::text::concat_chars(&a, &names[k]);
                let c = concat_str(&b, "' is >1.8GB but companion '.onnx.data' weight file is missing!");
                proof {
                    assert(vviews(names@)[k as int] == names@[k as int]@);
                }
                return string_of(&c);
            },
            TtsContractViolation::KokoroMissingGraph => "Kokoro Contract Violation: Missing primary ONNX model graph (*kokoro*.onnx or model*.onnx).",
            TtsContractViolation::KokoroMissingConfig => "Kokoro Contract Violation: Missing config.json or tokenizer.json / vocab.json.",
            TtsContractViolation::KokoroMissingVoices => "Kokoro Contract Violation: 'voices/' directory is missing or empty! Style vectors (.bin / .json) are required.",
            TtsContractViolation::SupertonicMissingStage => "Supertonic Contract Violation: Missing 1 or more of the 4 mandatory sub-graphs (text_encoder, duration_predictor, vector_estimator, vocoder).",
            TtsContractViolation::MatchaMissingStage => "Matcha-TTS Contract Violation: Missing acoustic flow estimator or HiFi-GAN neural vocoder sub-graph.",
            TtsContractViolation::PiperMissingFiles => "Piper/VITS Contract Violation: Missing primary model.onnx or config/tokens metadata.",
            TtsContractViolation::Audio8MissingStage => "Audio8 Contract Violation: Missing slow_ar generator or codec_decoder FP16 neural vocoder.",
            TtsContractViolation::CosyVoiceMissingStage => "CosyVoice Contract Violation: Missing speech_llm, flow_model/hift_vocoder, or campplus speaker extractor.",
            TtsContractViolation::ChatterboxMissingStage => "Chatterbox Contract Violation: Missing semantic generator or audio codec sub-graph.",
            TtsContractViolation::OmniVoiceMissingData => "OmniVoice Contract Violation: Missing mandatory model.onnx.data external weights file or genai_config.json.",
            TtsContractViolation::GenericMissingGraph => "Generic ONNX TTS Contract Violation: Missing primary .onnx graph file.",
            TtsContractViolation::GenericMissingConfig => "Generic ONNX TTS Contract Violation: Missing configuration JSON or tokens metadata file.",
        };
        text.to_owned()
    }

    /// Checks a downloaded package of TTS family `family` against that family's contract:
    /// its mandatory graphs, configuration and voice files, and external weights for
    /// graphs over the protobuf limit.  `Err` carries the first violation's message.
    pub fn validate_family_package_contract(family: &str, listing: &DirListing) -> (r: Result<(), String>)
        ensures
            match r {
                Ok(()) => tts_violation(family@, *listing) is None,
                Err(m) => tts_violation(family@, *listing) is Some && m@ == tts_violation_message(
                    tts_violation(family@, *listing)->0,
                    lowered_names(listing.entries@),
                ),
            },
    {
        let names = lowered_entry_names(listing);
        match Self::package_violation(family, listing, &names) {
            None => Ok(()),
            Some(v) => Err(Self::violation_message(v, &names)),
        }
    }
}

} // verus!
