//! What a weight file's header says about its model: architecture, context window,
//! quantization and bit depth, parameter count, chat template, and the vision /
//! audio / pooling hints that later decide its capabilities.
use vstd::prelude::*;
use crate::text::{
    chars_of, concat_chars, concat_str, contains, contains_any, decimal, decimal_chars, eq_str,
    file_stem_or_self, has_any_prefix, has_any_sub, has_sub, lower_chars, lower_of_chars,
    lowercase, or_else, parent_name, parent_name_of, parse_u64, parse_u64_chars, path_file_stem,
    starts_with_any, string_of, string_views, upper_chars, uppercase, table_lookup, find_word,
};
use crate::discovery::onnx::wrapping_product;

verus! {

/// Header facts of one weight file.
pub struct BinaryProbeResult {
    pub architecture: String,
    pub context_window: String,
    pub parameters_str: String,
    pub quantization: Option<String>,
    pub bit_depth: Option<String>,
    pub chat_template: Option<String>,
    pub think_start_tag: Option<String>,
    pub think_end_tag: Option<String>,
    pub requires_gpu: bool,
    pub has_vision_keys: bool,
    pub has_vision_tensors: bool,
    pub has_audio_keys: bool,
    pub has_audio_tensors: bool,
    pub has_pooling: bool,
    pub explicit_tasks: Vec<String>,
}

pub open spec fn opt_str(o: Option<String>) -> Option<Seq<char>> {
    match o {
        Some(s) => Some(s@),
        None => None,
    }
}

/// Nothing known yet: every label `Unknown`, no quantization, no hints.
pub open spec fn is_blank_probe(r: BinaryProbeResult) -> bool {
    &&& r.architecture@ == "Unknown"@
    &&& r.context_window@ == "Unknown"@
    &&& r.parameters_str@ == "Unknown"@
    &&& r.quantization is None
    &&& r.bit_depth is None
    &&& r.chat_template is None
    &&& r.think_start_tag is None
    &&& r.think_end_tag is None
    &&& !r.requires_gpu
    &&& !r.has_vision_keys
    &&& !r.has_vision_tensors
    &&& !r.has_audio_keys
    &&& !r.has_audio_tensors
    &&& !r.has_pooling
    &&& r.explicit_tasks@.len() == 0
}

impl BinaryProbeResult {
    /// A result with nothing known yet.
    pub fn unknown() -> (r: Self)
        ensures
            is_blank_probe(r),
    {
        BinaryProbeResult {
            architecture: "Unknown".to_owned(),
            context_window: "Unknown".to_owned(),
            parameters_str: "Unknown".to_owned(),
            quantization: None,
            bit_depth: None,
            chat_template: None,
            think_start_tag: None,
            think_end_tag: None,
            requires_gpu: false,
            has_vision_keys: false,
            has_vision_tensors: false,
            has_audio_keys: false,
            has_audio_tensors: false,
            has_pooling: false,
            explicit_tasks: Vec::new(),
        }
    }
}

/// Reasoning tags are not guessed from a chat template: both stay unknown.
pub fn find_header_reasoning_tags(_tmpl: &str) -> (r: (Option<String>, Option<String>))
    ensures
        r.0 is None && r.1 is None,
{
    (None, None)
}

// ───────────────────────── GGUF metadata ─────────────────────────

pub const GGUF_FILE_TYPE_CODES: [&'static str; 29] = [
    "0", "1", "2", "3", "7", "8", "9", "10", "11", "12", "13", "14", "15", "16", "17", "18", "24",
    "25", "26", "27", "28", "29", "30", "31", "32", "33", "34", "40", "41",
];

pub const GGUF_FILE_TYPE_NAMES: [&'static str; 29] = [
    "ALL_F32", "MOSTLY_F16", "MOSTLY_Q4_0", "MOSTLY_Q4_1", "MOSTLY_Q8_0", "MOSTLY_Q5_0",
    "MOSTLY_Q5_1", "MOSTLY_Q2_K", "MOSTLY_Q3_K_S", "MOSTLY_Q3_K_M", "MOSTLY_Q3_K_L",
    "MOSTLY_Q4_K_S", "MOSTLY_Q4_K_M", "MOSTLY_Q5_K_S", "MOSTLY_Q5_K_M", "MOSTLY_Q6_K",
    "MOSTLY_IQ2_XXS", "MOSTLY_IQ2_XS", "MOSTLY_IQ2_S", "MOSTLY_IQ3_XXS", "MOSTLY_IQ1_S",
    "MOSTLY_IQ4_NL", "MOSTLY_IQ3_S", "MOSTLY_IQ3_M", "MOSTLY_IQ2_M", "MOSTLY_IQ4_XS",
    "MOSTLY_IQ1_M", "TERNARY_1.58B", "TERNARY_1.58B",
];

pub const VISION_KEY_PREFIXES: [&'static str; 21] = [
    "clip.vision.", "vision.", "llava.", "gemma4.", "qwen2_vl.", "qwen3_vl.", "minicpm", "mllama.",
    "pixtral.", "internvl.", "internlm.", "cogvlm.", "moondream.", "phi3v.", "phi4v.", "florence.",
    "blip.", "paligemma.", "sam.", "molmo.", "deepseek_vl.",
];

pub const VISION_TENSOR_MARKERS: [&'static str; 12] = [
    "visual", "mm_projector", "v.proj", "vision_encoder", "img_proj", "multi_modal",
    "image_newline", "img_attn", "patch_embed", "resampler", "vision_tower", "cross_attn",
];

pub const TEMPLATE_IMAGE_MARKERS: [&'static str; 4] = [
    "<image>", "<picture>", "<|vision_start|>", "image",
];

pub const AUDIO_KEY_PREFIXES: [&'static str; 4] = ["whisper.", "audio.", "bark.", "kokoro."];

pub const AUDIO_TENSOR_MARKERS: [&'static str; 4] = [
    "audio_encoder", "mel_filters", "speech", "audio_proj",
];

pub const WHISPER_WINDOW: &'static str = "30s (3000 frames)";

/// Position of the first pair at or after `k` whose key is `key`.
pub open spec fn meta_index_from(m: Seq<(String, String)>, key: Seq<char>, k: int) -> Option<int>
    decreases m.len() - k,
{
    if k < 0 || k >= m.len() {
        None
    } else if m[k].0@ == key {
        Some(k)
    } else {
        meta_index_from(m, key, k + 1)
    }
}

/// Value stored under `key` in the metadata pairs.
pub open spec fn meta_get(m: Seq<(String, String)>, key: Seq<char>) -> Option<Seq<char>> {
    match meta_index_from(m, key, 0) {
        Some(i) => Some(m[i].1@),
        None => None,
    }
}

/// Human name of a GGUF `general.file_type` code; other values are kept as they are.
pub open spec fn gguf_quant_name(q: Seq<char>) -> Seq<char> {
    table_lookup(GGUF_FILE_TYPE_CODES@, GGUF_FILE_TYPE_NAMES@, q, q)
}

/// Bit depth from the lower-cased architecture, the upper-cased quantization name and
/// the lower-cased file stem.
pub open spec fn gguf_bit_depth(arch: Seq<char>, quant: Seq<char>, stem: Seq<char>) -> Seq<char> {
    if contains(arch, "bitnet"@) || contains(quant, "TERNARY"@) || contains(stem, "1.58"@) || contains(
        quant,
        "1.58"@,
    ) {
        "1.58-bit"@
    } else if contains(quant, "F32"@) {
        "32-bit"@
    } else if contains(quant, "F16"@) {
        "16-bit"@
    } else if contains(quant, "Q8"@) || contains(quant, "MOSTLY_Q8"@) {
        "8-bit"@
    } else if contains(quant, "Q6"@) {
        "6-bit"@
    } else if contains(quant, "Q5"@) {
        "5-bit"@
    } else if contains(quant, "Q4"@) || contains(quant, "MOSTLY_Q4"@) {
        "4-bit"@
    } else if contains(quant, "Q3"@) || contains(quant, "IQ3"@) {
        "3-bit"@
    } else if contains(quant, "Q2"@) || contains(quant, "IQ2"@) {
        "2-bit"@
    } else if contains(quant, "IQ1"@) {
        "1-bit"@
    } else {
        "4-bit"@
    }
}

/// The first of the context-length keys that is present for architecture `arch`.
pub open spec fn context_value(m: Seq<(String, String)>, arch: Seq<char>) -> Option<Seq<char>> {
    if meta_get(m, arch + ".context_length"@) is Some {
        meta_get(m, arch + ".context_length"@)
    } else if meta_get(m, "whisper.max_audio_ctx"@) is Some {
        meta_get(m, "whisper.max_audio_ctx"@)
    } else if meta_get(m, "whisper.context_length"@) is Some {
        meta_get(m, "whisper.context_length"@)
    } else {
        meta_get(m, "general.context_length"@)
    }
}

/// A context length as shown: whole thousands (of 1024) with `K` from 1024 on,
/// otherwise the stored text.
pub open spec fn context_label(c: Seq<char>) -> Seq<char> {
    match parse_u64(c) {
        Some(v) => if v >= 1024 {
            decimal((v / 1024) as nat) + "K"@
        } else {
            c
        },
        None => c,
    }
}

/// Context window of a GGUF header.
pub open spec fn gguf_context_window(m: Seq<(String, String)>) -> Seq<char> {
    match meta_get(m, "general.architecture"@) {
        None => "Unknown"@,
        Some(arch) => match context_value(m, arch) {
            Some(c) => context_label(c),
            None => if contains(arch, "whisper"@) {
                WHISPER_WINDOW@
            } else {
                "Unknown"@
            },
        },
    }
}

/// Task tags the header declares.
pub open spec fn gguf_tasks(m: Seq<(String, String)>) -> Seq<Seq<char>> {
    match meta_get(m, "general.pipeline_tag"@) {
        Some(t) => seq![t],
        None => match meta_get(m, "general.task"@) {
            Some(t) => seq![t],
            None => Seq::empty(),
        },
    }
}

/// Total element count of the tensors with dimensions (modulo 2^64).
pub open spec fn tensor_total(ts: Seq<(String, Vec<u64>)>) -> u64
    decreases ts.len(),
{
    if ts.len() == 0 {
        0
    } else {
        let last = ts.last().1@;
        vstd::wrapping::u64_specs::wrapping_add(
            tensor_total(ts.drop_last()),
            if last.len() == 0 { 0 } else { wrapping_product(last) },
        )
    }
}

/// Parameter count: the declared `general.parameter_count` when it parses and is not
/// zero, otherwise the element count of the tensors.
pub open spec fn gguf_parameter_count(m: Seq<(String, String)>, ts: Seq<(String, Vec<u64>)>) -> u64 {
    let declared = match meta_get(m, "general.parameter_count"@) {
        Some(c) => match parse_u64(c) {
            Some(n) => n,
            None => 0,
        },
        None => 0,
    };
    if declared == 0 {
        tensor_total(ts)
    } else {
        declared
    }
}

pub open spec fn vision_keys(m: Seq<(String, String)>) -> bool {
    exists|i: int| 0 <= i < m.len() && starts_with_any(lowercase(#[trigger] m[i].0@), VISION_KEY_PREFIXES@)
}

pub open spec fn template_mentions_images(m: Seq<(String, String)>) -> bool {
    match meta_get(m, "tokenizer.chat_template"@) {
        Some(t) => contains_any(lowercase(t), TEMPLATE_IMAGE_MARKERS@),
        None => false,
    }
}

pub open spec fn audio_keys(m: Seq<(String, String)>) -> bool {
    exists|i: int| 0 <= i < m.len() && starts_with_any(#[trigger] m[i].0@, AUDIO_KEY_PREFIXES@)
}

pub open spec fn tensor_marked(ts: Seq<(String, Vec<u64>)>, pats: Seq<&str>) -> bool {
    exists|i: int| 0 <= i < ts.len() && contains_any(lowercase(#[trigger] ts[i].0@), pats)
}

/// Lower-cased stem of a path (empty when it has none).
pub open spec fn lower_stem(p: Seq<char>) -> Seq<char> {
    lowercase(or_else(path_file_stem(p), Seq::<char>::empty()))
}

/// Everything a GGUF header decides, for a weight file at `path`.
pub open spec fn gguf_probe_matches(
    r: BinaryProbeResult,
    m: Seq<(String, String)>,
    ts: Seq<(String, Vec<u64>)>,
    path: Seq<char>,
) -> bool {
    let arch = or_else(meta_get(m, "general.architecture"@), "Unknown"@);
    let quant = match meta_get(m, "general.file_type"@) {
        Some(q) => Some(gguf_quant_name(q)),
        None => None,
    };
    &&& r.architecture@ == arch
    &&& r.context_window@ == gguf_context_window(m)
    &&& r.parameters_str@ == "Unknown"@
    &&& opt_str(r.quantization) == quant
    &&& opt_str(r.bit_depth) == Some(
        gguf_bit_depth(lowercase(arch), uppercase(or_else(quant, Seq::<char>::empty())), lower_stem(path)),
    )
    &&& opt_str(r.chat_template) == meta_get(m, "tokenizer.chat_template"@)
    &&& r.think_start_tag is None
    &&& r.think_end_tag is None
    &&& !r.requires_gpu
    &&& r.has_pooling == (meta_index_from(m, "general.pooling_type"@, 0) is Some)
    &&& r.has_vision_keys == (vision_keys(m) || template_mentions_images(m))
    &&& r.has_vision_tensors == tensor_marked(ts, VISION_TENSOR_MARKERS@)
    &&& r.has_audio_keys == audio_keys(m)
    &&& r.has_audio_tensors == tensor_marked(ts, AUDIO_TENSOR_MARKERS@)
    &&& string_views(r.explicit_tasks@) == gguf_tasks(m)
}

fn meta_find(m: &Vec<(String, String)>, key: &[char]) -> (r: Option<usize>)
    ensures
        match r {
            Some(i) => meta_index_from(m@, key@, 0) == Some(i as int) && i < m@.len(),
            None => meta_index_from(m@, key@, 0) is None,
        },
{
    let mut k: usize = 0;
    while k < m.len()
        invariant
            k <= m@.len(),
            meta_index_from(m@, key@, 0) == meta_index_from(m@, key@, k as int),
        decreases m.len() - k,
    {
        let kc = chars_of(m[k].0.as_str());
        if crate::text::chars_eq(&kc, key) {
            return Some(k);
        }
        k = k + 1;
    }
    None
}

fn meta_value(m: &Vec<(String, String)>, key: &[char]) -> (r: Option<String>)
    ensures
        opt_str(r) == meta_get(m@, key@),
{
    match meta_find(m, key) {
        Some(i) => Some(m[i].1.clone()),
        None => None,
    }
}

fn meta_value_str(m: &Vec<(String, String)>, key: &str) -> (r: Option<String>)
    ensures
        opt_str(r) == meta_get(m@, key@),
{
    let kc = chars_of(key);
    meta_value(m, &kc)
}

fn gguf_quant_name_of(q: &str) -> (r: String)
    ensures
        r@ == gguf_quant_name(q@),
{
    let qc = chars_of(q);
    match find_word(&GGUF_FILE_TYPE_CODES, &qc) {
        Some(k) => GGUF_FILE_TYPE_NAMES[k].to_owned(),
        None => q.to_owned(),
    }
}

fn gguf_bit_depth_of(arch: &[char], quant: &[char], stem: &[char]) -> (r: &'static str)
    ensures
        r@ == gguf_bit_depth(arch@, quant@, stem@),
{
    if has_sub(arch, "bitnet") || has_sub(quant, "TERNARY") || has_sub(stem, "1.58") || has_sub(quant, "1.58") {
        "1.58-bit"
    } else if has_sub(quant, "F32") {
        "32-bit"
    } else if has_sub(quant, "F16") {
        "16-bit"
    } else if has_sub(quant, "Q8") || has_sub(quant, "MOSTLY_Q8") {
        "8-bit"
    } else if has_sub(quant, "Q6") {
        "6-bit"
    } else if has_sub(quant, "Q5") {
        "5-bit"
    } else if has_sub(quant, "Q4") || has_sub(quant, "MOSTLY_Q4") {
        "4-bit"
    } else if has_sub(quant, "Q3") || has_sub(quant, "IQ3") {
        "3-bit"
    } else if has_sub(quant, "Q2") || has_sub(quant, "IQ2") {
        "2-bit"
    } else if has_sub(quant, "IQ1") {
        "1-bit"
    } else {
        "4-bit"
    }
}

fn context_label_of(c: &String) -> (r: String)
    ensures
        r@ == context_label(c@),
{
    let cc = chars_of(c.as_str());
    match parse_u64_chars(&cc) {
        Some(v) => if v >= 1024 {
            let d = decimal_chars(v / 1024);
            string_of(&concat_str(&d, "K"))
        } else {
            c.clone()
        },
        None => c.clone(),
    }
}

fn gguf_context_window_of(m: &Vec<(String, String)>) -> (r: String)
    ensures
        r@ == gguf_context_window(m@),
{
    match meta_value_str(m, "general.architecture") {
        None => "Unknown".to_owned(),
        Some(arch) => {
            let ac = chars_of(arch.as_str());
            let key = concat_str(&ac, ".context_length");
            let c = match meta_value(m, &key) {
                Some(v) => Some(v),
                None => match meta_value_str(m, "whisper.max_audio_ctx") {
                    Some(v) => Some(v),
                    None => match meta_value_str(m, "whisper.context_length") {
                        Some(v) => Some(v),
                        None => meta_value_str(m, "general.context_length"),
                    },
                },
            };
            match c {
                Some(v) => context_label_of(&v),
                None => if has_sub(&ac, "whisper") {
                    WHISPER_WINDOW.to_owned()
                } else {
                    "Unknown".to_owned()
                },
            }
        },
    }
}

fn wrapping_product_of(d: &Vec<u64>) -> (r: u64)
    ensures
        r == wrapping_product(d@),
{
    let mut p: u64 = 1;
    let mut k: usize = 0;
    while k < d.len()
        invariant
            k <= d@.len(),
            p == wrapping_product(d@.subrange(0, k as int)),
        decreases d.len() - k,
    {
        proof {
            assert(d@.subrange(0, k + 1).drop_last() =~= d@.subrange(0, k as int));
        }
        p = p.wrapping_mul(d[k]);
        k = k + 1;
    }
    assert(d@.subrange(0, d@.len() as int) =~= d@);
    p
}

fn tensor_total_of(ts: &Vec<(String, Vec<u64>)>) -> (r: u64)
    ensures
        r == tensor_total(ts@),
{
    let mut total: u64 = 0;
    let mut k: usize = 0;
    while k < ts.len()
        invariant
            k <= ts@.len(),
            total == tensor_total(ts@.subrange(0, k as int)),
        decreases ts.len() - k,
    {
        proof {
            assert(ts@.subrange(0, k + 1).drop_last() =~= ts@.subrange(0, k as int));
        }
        let count = if ts[k].1.len() == 0 {
            0
        } else {
            wrapping_product_of(&ts[k].1)
        };
        total = total.wrapping_add(count);
        k = k + 1;
    }
    assert(ts@.subrange(0, ts@.len() as int) =~= ts@);
    total
}

fn any_key_prefixed(m: &Vec<(String, String)>, pats: &[&str], lower: bool) -> (r: bool)
    ensures
        r == exists|i: int| 0 <= i < m@.len() && starts_with_any(
            if lower { lowercase(#[trigger] m@[i].0@) } else { m@[i].0@ },
            pats@,
        ),
{
    let mut k: usize = 0;
    while k < m.len()
        invariant
            k <= m@.len(),
            forall|j: int| 0 <= j < k ==> !starts_with_any(
                if lower { lowercase(#[trigger] m@[j].0@) } else { m@[j].0@ },
                pats@,
            ),
        decreases m.len() - k,
    {
        let kc = if lower { lower_chars(m[k].0.as_str()) } else { chars_of(m[k].0.as_str()) };
        if has_any_prefix(&kc, pats) {
            return true;
        }
        k = k + 1;
    }
    false
}

fn any_tensor_marked(ts: &Vec<(String, Vec<u64>)>, pats: &[&str]) -> (r: bool)
    ensures
        r == tensor_marked(ts@, pats@),
{
    let mut k: usize = 0;
    while k < ts.len()
        invariant
            k <= ts@.len(),
            forall|j: int| 0 <= j < k ==> !contains_any(lowercase(#[trigger] ts@[j].0@), pats@),
        decreases ts.len() - k,
    {
        let n = lower_chars(ts[k].0.as_str());
        if has_any_sub(&n, pats) {
            return true;
        }
        k = k + 1;
    }
    false
}

/// Lower-cased stem of a path (empty when it has none).
fn lower_stem_of(p: &str) -> (r: Vec<char>)
    ensures
        r@ == lower_stem(p@),
{
    match crate::text::file_stem_of(p) {
        Some(s) => lower_chars(s.as_str()),
        None => {
            let e: Vec<char> = Vec::new();
            let l = lower_of_chars(&e);
            l
        },
    }
}

/// Reads a GGUF header (its metadata pairs, with unique keys, and its tensors'
/// names and dimensions) for the weight file at `weight_path`.  Returns the probe
/// result and the parameter count; `parameters_str` is left `Unknown` for the caller
/// to format from the count.
pub fn probe_gguf_header(
    metadata: &Vec<(String, String)>,
    tensors: &Vec<(String, Vec<u64>)>,
    weight_path: &str,
) -> (r: (BinaryProbeResult, u64))
    ensures
        gguf_probe_matches(r.0, metadata@, tensors@, weight_path@),
        r.1 == gguf_parameter_count(metadata@, tensors@),
{
    let mut res = BinaryProbeResult::unknown();
    if let Some(arch) = meta_value_str(metadata, "general.architecture") {
        res.architecture = arch;
    }
    res.context_window = gguf_context_window_of(metadata);
    if let Some(tag) = meta_value_str(metadata, "general.pipeline_tag") {
        res.explicit_tasks.push(tag);
    } else if let Some(tag) = meta_value_str(metadata, "general.task") {
        res.explicit_tasks.push(tag);
    }
    proof {
        assert(string_views(res.explicit_tasks@) =~= gguf_tasks(metadata@));
    }
    let detected = match meta_value_str(metadata, "general.file_type") {
        Some(q) => Some(gguf_quant_name_of(q.as_str())),
        None => None,
    };
    let quant_upper = match &detected {
        Some(q) => upper_chars(q.as_str()),
        None => upper_chars(""),
    };
    proof {
        reveal_strlit("");
        assert(""@ =~= Seq::<char>::empty());
    }
    res.quantization = detected;
    let arch_lower = lower_chars(res.architecture.as_str());
    let stem = lower_stem_of(weight_path);
    let depth = gguf_bit_depth_of(&arch_lower, &quant_upper, &stem);
    res.bit_depth = Some(depth.to_owned());

    let mut total: u64 = 0;
    if let Some(cnt) = meta_value_str(metadata, "general.parameter_count") {
        let cc = chars_of(cnt.as_str());
        if let Some(n) = parse_u64_chars(&cc) {
            total = n;
        }
    }
    if total == 0 {
        total = tensor_total_of(tensors);
    }

    if let Some(tmpl) = meta_value_str(metadata, "tokenizer.chat_template") {
        let (start, end) = find_header_reasoning_tags(tmpl.as_str());
        res.chat_template = Some(tmpl);
        res.think_start_tag = start;
        res.think_end_tag = end;
    }
    let pool_key = chars_of("general.pooling_type");
    res.has_pooling = meta_find(metadata, &pool_key).is_some();
    res.has_vision_keys = any_key_prefixed(metadata, &VISION_KEY_PREFIXES, true);
    res.has_vision_tensors = any_tensor_marked(tensors, &VISION_TENSOR_MARKERS);
    if let Some(tmpl) = meta_value_str(metadata, "tokenizer.chat_template") {
        let tl = lower_chars(tmpl.as_str());
        if has_any_sub(&tl, &TEMPLATE_IMAGE_MARKERS) {
            res.has_vision_keys = true;
        }
    }
    res.has_audio_keys = any_key_prefixed(metadata, &AUDIO_KEY_PREFIXES, false);
    res.has_audio_tensors = any_tensor_marked(tensors, &AUDIO_TENSOR_MARKERS);
    (res, total)
}


// ───────────────────────── ONNX file names ─────────────────────────

pub const ONNX_TERNARY_MARKERS: [&'static str; 5] = ["1.58bit", "ternary", "tq1", "tq2", "bitnet"];
pub const ONNX_Q2_MARKERS: [&'static str; 3] = ["q2", "2bit", "iq2"];
pub const ONNX_Q3_MARKERS: [&'static str; 3] = ["q3", "3bit", "iq3"];
pub const ONNX_Q4_MARKERS: [&'static str; 5] = ["q4", "4bit", "int4", "awq", "gptq"];
pub const ONNX_Q5_MARKERS: [&'static str; 2] = ["q5", "5bit"];
pub const ONNX_Q6_MARKERS: [&'static str; 2] = ["q6", "6bit"];
pub const ONNX_INT8_MARKERS: [&'static str; 3] = ["int8", "q8", "fp8"];
pub const ONNX_FP16_MARKERS: [&'static str; 3] = ["fp16", "bfloat16", "bf16"];

/// The family an ONNX file's stem or parent folder names.
#[derive(Debug, Clone, Copy, PartialEq, Eq, Structural)]
pub enum OnnxNameFamily {
    Embedding,
    Nomic,
    Clip,
    Whisper,
    Speech,
    Other,
}

/// Either the lower-cased stem or the lower-cased parent folder name contains `p`.
pub open spec fn named(stem: Seq<char>, parent: Seq<char>, p: Seq<char>) -> bool {
    contains(stem, p) || contains(parent, p)
}

pub open spec fn onnx_name_family(stem: Seq<char>, parent: Seq<char>) -> OnnxNameFamily {
    if named(stem, parent, "bge"@) || named(stem, parent, "bert"@) {
        OnnxNameFamily::Embedding
    } else if named(stem, parent, "nomic"@) {
        OnnxNameFamily::Nomic
    } else if named(stem, parent, "clip"@) {
        OnnxNameFamily::Clip
    } else if named(stem, parent, "whisper"@) {
        OnnxNameFamily::Whisper
    } else if named(stem, parent, "kokoro"@) || named(stem, parent, "tts"@) || named(stem, parent, "bark"@) {
        OnnxNameFamily::Speech
    } else {
        OnnxNameFamily::Other
    }
}

/// Quantization label and bit depth read from a lower-cased ONNX stem.
pub open spec fn onnx_quant(stem: Seq<char>) -> (Seq<char>, Seq<char>) {
    if contains_any(stem, ONNX_TERNARY_MARKERS@) {
        ("1.58-bit Ternary"@, "1.58-bit"@)
    } else if contains_any(stem, ONNX_Q2_MARKERS@) {
        ("Q2_K"@, "2-bit"@)
    } else if contains_any(stem, ONNX_Q3_MARKERS@) {
        ("Q3_K"@, "3-bit"@)
    } else if contains_any(stem, ONNX_Q4_MARKERS@) {
        ("INT4 / Q4_K"@, "4-bit"@)
    } else if contains_any(stem, ONNX_Q5_MARKERS@) {
        ("Q5_K"@, "5-bit"@)
    } else if contains_any(stem, ONNX_Q6_MARKERS@) {
        ("Q6_K"@, "6-bit"@)
    } else if contains_any(stem, ONNX_INT8_MARKERS@) {
        ("INT8"@, "8-bit"@)
    } else if contains_any(stem, ONNX_FP16_MARKERS@) {
        ("FP16"@, "16-bit"@)
    } else {
        ("FP32"@, "32-bit"@)
    }
}

/// Everything an ONNX weight file's name decides, with `ctx` the context label the
/// graph scan found.
pub open spec fn onnx_probe_matches(r: BinaryProbeResult, path: Seq<char>, ctx: Option<Seq<char>>) -> bool {
    let stem = lower_stem(path);
    let parent = lowercase(parent_name(path));
    let fam = onnx_name_family(stem, parent);
    &&& r.architecture@ == match fam {
        OnnxNameFamily::Embedding => "embedding_encoder"@,
        OnnxNameFamily::Nomic => "nomic"@,
        OnnxNameFamily::Clip => "clip"@,
        OnnxNameFamily::Whisper => "whisper"@,
        OnnxNameFamily::Speech => "tts_engine"@,
        OnnxNameFamily::Other => if parent.len() > 0 { parent } else { stem },
    }
    &&& r.context_window@ == if fam == OnnxNameFamily::Whisper {
        WHISPER_WINDOW@
    } else {
        or_else(ctx, "Unknown"@)
    }
    &&& r.parameters_str@ == "Unknown"@
    &&& opt_str(r.quantization) == Some(onnx_quant(stem).0)
    &&& opt_str(r.bit_depth) == Some(onnx_quant(stem).1)
    &&& r.chat_template is None
    &&& r.think_start_tag is None
    &&& r.think_end_tag is None
    &&& !r.requires_gpu
    &&& r.has_pooling == (fam == OnnxNameFamily::Embedding || fam == OnnxNameFamily::Nomic)
    &&& r.has_vision_keys == (fam == OnnxNameFamily::Clip)
    &&& r.has_vision_tensors == (fam == OnnxNameFamily::Clip)
    &&& r.has_audio_keys == (fam == OnnxNameFamily::Whisper || fam == OnnxNameFamily::Speech)
    &&& r.has_audio_tensors == (fam == OnnxNameFamily::Whisper || fam == OnnxNameFamily::Speech)
    &&& r.explicit_tasks@.len() == 0
}

fn named_of(stem: &[char], parent: &[char], p: &str) -> (r: bool)
    ensures
        r == named(stem@, parent@, p@),
{
    has_sub(stem, p) || has_sub(parent, p)
}

fn onnx_name_family_of(stem: &[char], parent: &[char]) -> (r: OnnxNameFamily)
    ensures
        r == onnx_name_family(stem@, parent@),
{
    if named_of(stem, parent, "bge") || named_of(stem, parent, "bert") {
        OnnxNameFamily::Embedding
    } else if named_of(stem, parent, "nomic") {
        OnnxNameFamily::Nomic
    } else if named_of(stem, parent, "clip") {
        OnnxNameFamily::Clip
    } else if named_of(stem, parent, "whisper") {
        OnnxNameFamily::Whisper
    } else if named_of(stem, parent, "kokoro") || named_of(stem, parent, "tts") || named_of(stem, parent, "bark") {
        OnnxNameFamily::Speech
    } else {
        OnnxNameFamily::Other
    }
}

fn onnx_quant_of(stem: &[char]) -> (r: (&'static str, &'static str))
    ensures
        (r.0@, r.1@) == onnx_quant(stem@),
{
    if has_any_sub(stem, &ONNX_TERNARY_MARKERS) {
        ("1.58-bit Ternary", "1.58-bit")
    } else if has_any_sub(stem, &ONNX_Q2_MARKERS) {
        ("Q2_K", "2-bit")
    } else if has_any_sub(stem, &ONNX_Q3_MARKERS) {
        ("Q3_K", "3-bit")
    } else if has_any_sub(stem, &ONNX_Q4_MARKERS) {
        ("INT4 / Q4_K", "4-bit")
    } else if has_any_sub(stem, &ONNX_Q5_MARKERS) {
        ("Q5_K", "5-bit")
    } else if has_any_sub(stem, &ONNX_Q6_MARKERS) {
        ("Q6_K", "6-bit")
    } else if has_any_sub(stem, &ONNX_INT8_MARKERS) {
        ("INT8", "8-bit")
    } else if has_any_sub(stem, &ONNX_FP16_MARKERS) {
        ("FP16", "16-bit")
    } else {
        ("FP32", "32-bit")
    }
}

/// Probe result for an ONNX weight file at `weight_path`, from its stem and parent
/// folder name, with `ctx_window` the context label its graph scan found.
/// `parameters_str` is left `Unknown` for the caller to format from the scan's count.
pub fn probe_onnx_names(weight_path: &str, ctx_window: Option<String>) -> (r: BinaryProbeResult)
    ensures
        onnx_probe_matches(r, weight_path@, opt_str(ctx_window)),
{
    let mut res = BinaryProbeResult::unknown();
    if let Some(ctx) = ctx_window {
        res.context_window = ctx;
    }
    let stem = lower_stem_of(weight_path);
    let parent_raw = parent_name_of(weight_path);
    let parent = lower_of_chars(&parent_raw);
    match onnx_name_family_of(&stem, &parent) {
        OnnxNameFamily::Embedding => {
            res.architecture = "embedding_encoder".to_owned();
            res.has_pooling = true;
        },
        OnnxNameFamily::Nomic => {
            res.architecture = "nomic".to_owned();
            res.has_pooling = true;
        },
        OnnxNameFamily::Clip => {
            res.architecture = "clip".to_owned();
            res.has_vision_keys = true;
            res.has_vision_tensors = true;
        },
        OnnxNameFamily::Whisper => {
            res.architecture = "whisper".to_owned();
            res.context_window = WHISPER_WINDOW.to_owned();
            res.has_audio_keys = true;
            res.has_audio_tensors = true;
        },
        OnnxNameFamily::Speech => {
            res.architecture = "tts_engine".to_owned();
            res.has_audio_keys = true;
            res.has_audio_tensors = true;
        },
        OnnxNameFamily::Other => {
            res.architecture = if parent.len() > 0 {
                string_of(&parent)
            } else {
                string_of(&stem)
            };
        },
    }
    let (q, d) = onnx_quant_of(&stem);
    res.quantization = Some(q.to_owned());
    res.bit_depth = Some(d.to_owned());
    res
}

// ───────────────────────── side-car JSON ─────────────────────────

pub const SIDECAR_VISION_ARCHS: [&'static str; 17] = [
    "gemma4", "qwen2_vl", "qwen3_vl", "minicpm", "llava", "mllama", "pixtral", "internvl", "cogvlm",
    "moondream", "phi3v", "phi4v", "florence", "blip", "paligemma", "molmo", "deepseek_vl",
];

/// `s` followed by each of `xs` that is not already present (in order).
pub open spec fn push_new(s: Seq<Seq<char>>, xs: Seq<Seq<char>>) -> Seq<Seq<char>>
    decreases xs.len(),
{
    if xs.len() == 0 {
        s
    } else {
        let p = push_new(s, xs.drop_last());
        if p.contains(xs.last()) {
            p
        } else {
            p.push(xs.last())
        }
    }
}

pub open spec fn opt_seq(o: Option<String>) -> Seq<Seq<char>> {
    match o {
        Some(t) => seq![t@],
        None => Seq::empty(),
    }
}

fn push_new_strings(v: &mut Vec<String>, xs: &Vec<String>)
    ensures
        string_views(final(v)@) == push_new(string_views(old(v)@), string_views(xs@)),
{
    let ghost start = string_views(v@);
    let mut k: usize = 0;
    while k < xs.len()
        invariant
            k <= xs@.len(),
            string_views(v@) == push_new(start, string_views(xs@.subrange(0, k as int))),
        decreases xs.len() - k,
    {
        proof {
            assert(string_views(xs@.subrange(0, k + 1)).drop_last() =~= string_views(
                xs@.subrange(0, k as int),
            ));
            assert(string_views(xs@.subrange(0, k + 1)).last() == xs@[k as int]@);
        }
        if !crate::text::strings_contain(v.as_slice(), xs[k].as_str()) {
            v.push(xs[k].clone());
            proof {
                assert(string_views(v@) =~= push_new(start, string_views(xs@.subrange(0, k as int))).push(
                    xs@[k as int]@,
                ));
            }
        }
        k = k + 1;
    }
    assert(xs@.subrange(0, xs@.len() as int) =~= xs@);
}

/// Adds what a model's side-car JSON declares: its task list (`tasks`), its single
/// task (`task`), each kept once in first-seen order, and a vision hint from its
/// first listed architecture.
pub fn merge_sidecar_json(
    res: &mut BinaryProbeResult,
    tasks: &Vec<String>,
    task: Option<String>,
    first_architecture: Option<String>,
)
    ensures
        string_views(final(res).explicit_tasks@) == push_new(
            push_new(string_views(old(res).explicit_tasks@), string_views(tasks@)),
            opt_seq(task),
        ),
        final(res).has_vision_keys == (old(res).has_vision_keys || match first_architecture {
            Some(a) => contains_any(lowercase(a@), SIDECAR_VISION_ARCHS@),
            None => false,
        }),
        final(res).architecture == old(res).architecture,
        final(res).context_window == old(res).context_window,
        final(res).parameters_str == old(res).parameters_str,
        final(res).quantization == old(res).quantization,
        final(res).bit_depth == old(res).bit_depth,
        final(res).chat_template == old(res).chat_template,
        final(res).think_start_tag == old(res).think_start_tag,
        final(res).think_end_tag == old(res).think_end_tag,
        final(res).requires_gpu == old(res).requires_gpu,
        final(res).has_vision_tensors == old(res).has_vision_tensors,
        final(res).has_audio_keys == old(res).has_audio_keys,
        final(res).has_audio_tensors == old(res).has_audio_tensors,
        final(res).has_pooling == old(res).has_pooling,
{
    push_new_strings(&mut res.explicit_tasks, tasks);
    let one: Vec<String> = match task {
        Some(t) => vec![t],
        None => Vec::new(),
    };
    proof {
        assert(string_views(one@) =~= opt_seq(task));
    }
    push_new_strings(&mut res.explicit_tasks, &one);
    if let Some(a) = first_architecture {
        let al = lower_chars(a.as_str());
        if has_any_sub(&al, &SIDECAR_VISION_ARCHS) {
            res.has_vision_keys = true;
        }
    }
}

/// Keys of a side-car JSON that list a model's tasks, first present wins.
pub const SIDECAR_TASKS_KEYS: [&'static str; 2] = ["supported_tasks", "tasks"];

/// Keys of a side-car JSON that name a model's single task.
pub const SIDECAR_TASK_KEYS: [&'static str; 2] = ["task", "pipeline_tag"];

pub open spec fn opt_text_seq(o: Option<Seq<char>>) -> Seq<Seq<char>> {
    match o {
        Some(t) => seq![t],
        None => Seq::empty(),
    }
}

/// Adds what the text of a model's side-car JSON (its manifest or `config.json`)
/// declares: the string items under the first present of `supported_tasks` /
/// `tasks`, the string under the first present of `task` / `pipeline_tag`, and a
/// vision hint from the first of its `architectures`.  Text that is no JSON object
/// adds nothing.
pub fn merge_sidecar_text(res: &mut BinaryProbeResult, text: &str)
    ensures
        string_views(final(res).explicit_tasks@) == push_new(
            push_new(
                string_views(old(res).explicit_tasks@),
                crate::json::opt_item_strings(crate::json::items_under(text@, SIDECAR_TASKS_KEYS@)),
            ),
            opt_text_seq(crate::json::str_under(text@, SIDECAR_TASK_KEYS@)),
        ),
        final(res).has_vision_keys == (old(res).has_vision_keys || match crate::json::first_item_string(
            crate::json::json_items_at(text@, "architectures"@),
        ) {
            Some(a) => contains_any(lowercase(a), SIDECAR_VISION_ARCHS@),
            None => false,
        }),
        final(res).architecture == old(res).architecture,
        final(res).context_window == old(res).context_window,
        final(res).parameters_str == old(res).parameters_str,
        final(res).quantization == old(res).quantization,
        final(res).bit_depth == old(res).bit_depth,
        final(res).chat_template == old(res).chat_template,
        final(res).think_start_tag == old(res).think_start_tag,
        final(res).think_end_tag == old(res).think_end_tag,
        final(res).requires_gpu == old(res).requires_gpu,
        final(res).has_vision_tensors == old(res).has_vision_tensors,
        final(res).has_audio_keys == old(res).has_audio_keys,
        final(res).has_audio_tensors == old(res).has_audio_tensors,
        final(res).has_pooling == old(res).has_pooling,
{
    let tasks = crate::json::strings_of_items(crate::json::items_under_keys(text, &SIDECAR_TASKS_KEYS));
    let task = crate::json::str_under_keys(text, &SIDECAR_TASK_KEYS);
    let first_arch = crate::json::first_string_item(crate::json::items_at(text, "architectures"));
    proof {
        assert(opt_seq(task) =~= opt_text_seq(crate::json::str_under(text@, SIDECAR_TASK_KEYS@)));
    }
    merge_sidecar_json(res, &tasks, task, first_arch);
}

} // verus!
