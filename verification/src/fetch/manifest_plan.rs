//! The descriptive part of a manifest for a custom Hugging Face file: its
//! sovereign id, format, display architecture and category.  Sizes and memory
//! estimates (floating point) are added by the caller.
use vstd::prelude::*;
use crate::fetch::hub::{repo_display_name, HuggingFaceHub};
use crate::fetch::tts_resolver::{tts_family_spec, TtsAssetResolver};
use crate::serving::chat_flow::{rfind, rfind_chars};
use crate::text::{
    chars_of, concat_chars, concat_str, eq_str, file_name_of, lower_chars, lowercase, or_else,
    path_file_name, replace_all, replace_str_chars, slice_copy, string_of, to_upper, uppercase,
};

verus! {

/// Last `.`-separated piece of a file name (the whole name when it has no `.`).
pub open spec fn format_ext_spec(filename: Seq<char>) -> Seq<char> {
    match rfind(filename, "."@) {
        Some(i) => filename.subrange(i + 1, filename.len() as int),
        None => filename,
    }
}

/// The file's name with its weight-format suffixes removed, lower-cased.
pub open spec fn plain_name_spec(basename: Seq<char>) -> Seq<char> {
    let a = replace_all(lowercase(basename), ".gguf"@, Seq::empty());
    let b = replace_all(a, ".onnx"@, Seq::empty());
    let c = replace_all(b, ".safetensors"@, Seq::empty());
    let d = replace_all(c, ".bin"@, Seq::empty());
    let e = replace_all(d, ".pt"@, Seq::empty());
    replace_all(e, ".awq"@, Seq::empty())
}

/// The sovereign id: `<repo>-<name>`, or the lower-cased repository name alone
/// when the file's name is generic, repeats it, or is empty.
pub open spec fn custom_id_spec(repo_base: Seq<char>, name: Seq<char>) -> Seq<char> {
    if name != "model"@ && name != "model_q4"@ && name != "pytorch_model"@ && name != repo_base && name.len() > 0 {
        repo_base + "-"@ + name
    } else {
        repo_base
    }
}

/// Flags a hub pipeline tag sets: (embedding, vision, image generation, audio).
pub open spec fn pipeline_flags_spec(tag: Option<Seq<char>>) -> (bool, bool, bool, bool) {
    match tag {
        Some(t) => if t == "feature-extraction"@ || t == "sentence-similarity"@ {
            (true, false, false, false)
        } else if t == "image-classification"@ || t == "object-detection"@ || t == "image-to-text"@
            || t == "zero-shot-image-classification"@ || t == "image-text-to-text"@ {
            (false, true, false, false)
        } else if t == "text-to-image"@ || t == "image-to-image"@ {
            (false, false, true, false)
        } else if t == "text-to-speech"@ || t == "automatic-speech-recognition"@ || t == "audio-classification"@
            || t == "text-to-audio"@ || t == "voice-activity-detection"@ {
            (false, false, false, true)
        } else {
            (false, false, false, false)
        },
        None => (false, false, false, false),
    }
}

/// Display architecture: the raw architecture without its head suffixes and with
/// its first character upper-cased; a format label when none is known.
pub open spec fn display_architecture_spec(raw: Seq<char>, is_onnx: bool) -> Seq<char> {
    if raw.len() > 0 {
        let a = replace_all(raw, "ForCausalLM"@, Seq::empty());
        let b = replace_all(a, "ForConditionalGeneration"@, Seq::empty());
        let c = replace_all(b, "ForSpeechSeq2Seq"@, Seq::empty());
        let clean = replace_all(c, "Model"@, Seq::empty());
        if clean.len() > 0 {
            uppercase(seq![clean[0]]) + clean.subrange(1, clean.len() as int)
        } else {
            "Model Graph"@
        }
    } else if is_onnx {
        "ONNX Graph"@
    } else {
        "GGUF Graph"@
    }
}

/// Category of a custom model: audio for a recognised speech family or an audio
/// tag, then embedding, image generation, vision; chat otherwise.
pub open spec fn custom_category_spec(tts_family: Seq<char>, flags: (bool, bool, bool, bool)) -> Seq<char> {
    let detected = tts_family != "generic-onnx-tts"@ && tts_family != "whisper-gguf"@;
    if detected || flags.3 {
        "audio"@
    } else if flags.0 {
        "embedding"@
    } else if flags.2 {
        "image_gen"@
    } else if flags.1 {
        "vision"@
    } else {
        "chat"@
    }
}

/// The manifest fields decided from a repository id, a file and what the hub
/// says of the model.
pub struct CustomManifestPlan {
    pub id: String,
    pub architecture: String,
    pub architecture_type: String,
    pub huggingface_filename: String,
    pub download_url: String,
    pub input_modality: String,
    pub family: String,
    pub category: String,
    pub has_vision: bool,
    pub is_onnx: bool,
}

fn strip_all(s: &[char], pat: &str) -> (r: Vec<char>)
    requires
        pat@.len() > 0,
    ensures
        r@ == replace_all(s@, pat@, Seq::empty()),
{
    proof {
        reveal_strlit("");
        assert(""@ =~= Seq::<char>::empty());
    }
    replace_str_chars(s, pat, "")
}

pub fn format_ext(filename: &str) -> (r: String)
    ensures
        r@ == format_ext_spec(filename@),
{
    let c = chars_of(filename);
    let dot = chars_of(".");
    match rfind_chars(&c, &dot) {
        Some(i) => {
            proof {
                reveal_strlit(".");
                crate::serving::chat_flow::lemma_rfind_some(c@, dot@);
            }
            let n = c.len();
            assert(i < n);
            string_of(&slice_copy(&c, i + 1, n))
        },
        None => filename.to_owned(),
    }
}

pub fn plain_name(basename: &str) -> (r: Vec<char>)
    ensures
        r@ == plain_name_spec(basename@),
{
    proof {
        reveal_strlit(".gguf");
        reveal_strlit(".onnx");
        reveal_strlit(".safetensors");
        reveal_strlit(".bin");
        reveal_strlit(".pt");
        reveal_strlit(".awq");
    }
    let l = lower_chars(basename);
    let a = strip_all(&l, ".gguf");
    let b = strip_all(&a, ".onnx");
    let c = strip_all(&b, ".safetensors");
    let d = strip_all(&c, ".bin");
    let e = strip_all(&d, ".pt");
    strip_all(&e, ".awq")
}

pub fn pipeline_flags(tag: Option<&str>) -> (r: (bool, bool, bool, bool))
    ensures
        r == pipeline_flags_spec(crate::text::opt_str_view(tag)),
{
    match tag {
        Some(t) => {
            let c = chars_of(t);
            if eq_str(&c, "feature-extraction") || eq_str(&c, "sentence-similarity") {
                (true, false, false, false)
            } else if eq_str(&c, "image-classification") || eq_str(&c, "object-detection") || eq_str(&c, "image-to-text")
                || eq_str(&c, "zero-shot-image-classification") || eq_str(&c, "image-text-to-text") {
                (false, true, false, false)
            } else if eq_str(&c, "text-to-image") || eq_str(&c, "image-to-image") {
                (false, false, true, false)
            } else if eq_str(&c, "text-to-speech") || eq_str(&c, "automatic-speech-recognition")
                || eq_str(&c, "audio-classification") || eq_str(&c, "text-to-audio")
                || eq_str(&c, "voice-activity-detection") {
                (false, false, false, true)
            } else {
                (false, false, false, false)
            }
        },
        None => (false, false, false, false),
    }
}

pub fn display_architecture(raw: &str, is_onnx: bool) -> (r: String)
    ensures
        r@ == display_architecture_spec(raw@, is_onnx),
{
    let c = chars_of(raw);
    if c.len() == 0 {
        return if is_onnx { "ONNX Graph".to_owned() } else { "GGUF Graph".to_owned() };
    }
    proof {
        reveal_strlit("ForCausalLM");
        reveal_strlit("ForConditionalGeneration");
        reveal_strlit("ForSpeechSeq2Seq");
        reveal_strlit("Model");
    }
    let a = strip_all(&c, "ForCausalLM");
    let b = strip_all(&a, "ForConditionalGeneration");
    let d = strip_all(&b, "ForSpeechSeq2Seq");
    let clean = strip_all(&d, "Model");
    if clean.len() == 0 {
        return "Model Graph".to_owned();
    }
    let first = string_of(&slice_copy(&clean, 0, 1));
    assert(first@ =~= seq![clean@[0]]);
    let up = to_upper(first.as_str());
    let uc = chars_of(up.as_str());
    let rest = slice_copy(&clean, 1, clean.len());
    string_of(&concat_chars(&uc, &rest))
}

impl HuggingFaceHub {
    /// The manifest fields of a custom file: id from the repository and the file's
    /// plain name; format from the file's last extension; display architecture;
    /// category from the recognised speech family and the pipeline tag; vision
    /// from the tag.
    pub fn plan_custom_manifest(
        repo_id: &str,
        filename: &str,
        pipeline_tag: Option<&str>,
        raw_architecture: &str,
    ) -> (r: CustomManifestPlan)
        ensures
            ({
                let ext = format_ext_spec(filename@);
                let base = or_else(path_file_name(filename@), filename@);
                let repo_base = lowercase(repo_display_name(repo_id@));
                let flags = pipeline_flags_spec(crate::text::opt_str_view(pipeline_tag));
                &&& r.id@ == custom_id_spec(repo_base, plain_name_spec(base))
                &&& r.architecture_type@ == ext
                &&& r.is_onnx == (ext == "onnx"@)
                &&& r.architecture@ == display_architecture_spec(raw_architecture@, ext == "onnx"@)
                &&& r.huggingface_filename@ == base
                &&& r.download_url@ == "https://huggingface.co/"@ + repo_id@ + "/resolve/main/"@ + filename@
                &&& r.has_vision == flags.1
                &&& r.input_modality@ == (if flags.1 { "Text + Vision"@ } else { "Text"@ })
                &&& r.family@ == repo_base
                &&& r.category@ == custom_category_spec(tts_family_spec(repo_id@, filename@), flags)
            }),
    {
        let ext = format_ext(filename);
        let ec = chars_of(ext.as_str());
        let is_onnx = eq_str(&ec, "onnx");
        let base: String = match file_name_of(filename) {
            Some(b) => b,
            None => filename.to_owned(),
        };
        let name = plain_name(base.as_str());
        let rb = Self::repo_display_name(repo_id);
        let repo_base = lower_chars(rb.as_str());
        let generic = eq_str(&name, "model") || eq_str(&name, "model_q4") || eq_str(&name, "pytorch_model")
            || crate::text::chars_eq(&name, &repo_base) || name.len() == 0;
        let id = if !generic {
            let a = concat_str(&repo_base, "-");
            string_of(&concat_chars(&a, &name))
        } else {
            string_of(&repo_base)
        };
        let flags = pipeline_flags(pipeline_tag);
        let family_tag = TtsAssetResolver::detect_tts_family(repo_id, filename);
        let fc = chars_of(family_tag);
        let detected = !eq_str(&fc, "generic-onnx-tts") && !eq_str(&fc, "whisper-gguf");
        let category = if detected || flags.3 {
            "audio".to_owned()
        } else if flags.0 {
            "embedding".to_owned()
        } else if flags.2 {
            "image_gen".to_owned()
        } else if flags.1 {
            "vision".to_owned()
        } else {
            "chat".to_owned()
        };
        CustomManifestPlan {
            id,
            architecture: display_architecture(raw_architecture, is_onnx),
            architecture_type: ext,
            huggingface_filename: base,
            download_url: Self::download_url(repo_id, filename),
            input_modality: if flags.1 { "Text + Vision".to_owned() } else { "Text".to_owned() },
            family: string_of(&repo_base),
            category,
            has_vision: flags.1,
            is_onnx,
        }
    }
}

// ───────────────────────── bundle download plan ─────────────────────────

/// Folder-safe model id: `:` read as `-`.
pub fn safe_model_id(id: &str) -> (r: String)
    ensures
        r@ == crate::text::replace_char(id@, ':', '-'),
{
    let c = chars_of(id);
    string_of(&crate::text::replace_char_chars(&c, ':', '-'))
}

/// The repository URL a Hugging Face download URL points into: the text before
/// its first `/resolve`.  `None` for other hosts, or when nothing precedes it.
pub open spec fn hub_repo_prefix_spec(url: Seq<char>) -> Option<Seq<char>> {
    if !crate::text::contains(url, "huggingface.co"@) {
        None
    } else {
        let p = match crate::text::find(url, "/resolve"@) {
            Some(i) => url.subrange(0, i),
            None => url,
        };
        if p.len() > 0 { Some(p) } else { None }
    }
}

pub fn hub_repo_prefix(download_url: &str) -> (r: Option<String>)
    ensures
        crate::text::opt_view(r) == hub_repo_prefix_spec(download_url@),
{
    let c = chars_of(download_url);
    if !crate::text::has_sub(&c, "huggingface.co") {
        return None;
    }
    proof {
        crate::text::lemma_find(c@, "/resolve"@);
    }
    let p = match crate::text::find_str(&c, "/resolve") {
        Some(i) => slice_copy(&c, 0, i),
        None => slice_copy(&c, 0, c.len()),
    };
    assert(c@.subrange(0, c@.len() as int) =~= c@);
    if p.len() > 0 { Some(string_of(&p)) } else { None }
}

/// Voice and phoneme data keep their folder inside the model folder.
pub const VOICE_DIR_MARKERS: [&'static str; 3] = ["voices/", "voice_styles/", "espeak-ng-data/"];

/// Where a bundle file is stored (relative to the model folder) and the URL it
/// is fetched from: voice data keeps its relative path, other files keep only
/// their name.
pub open spec fn bundle_file_spec(repo: Seq<char>, rel: Seq<char>) -> (Seq<char>, Seq<char>) {
    let local = if crate::text::contains_any(lowercase(rel), VOICE_DIR_MARKERS@) {
        rel
    } else {
        or_else(path_file_name(rel), rel)
    };
    (local, repo + "/resolve/main/"@ + rel)
}

pub fn bundle_file(repo: &str, rel_path: &str) -> (r: (String, String))
    ensures
        (r.0@, r.1@) == bundle_file_spec(repo@, rel_path@),
{
    let l = lower_chars(rel_path);
    let local = if crate::text::has_any_sub(&l, &VOICE_DIR_MARKERS) {
        rel_path.to_owned()
    } else {
        match file_name_of(rel_path) {
            Some(n) => n,
            None => rel_path.to_owned(),
        }
    };
    let a = chars_of(repo);
    let b = concat_str(&a, "/resolve/main/");
    let u = concat_chars(&b, &chars_of(rel_path));
    (local, string_of(&u))
}

/// The parameter label kept for a model: the manifest's, when it is given (not
/// blank and not `Unknown`), else the probed one.
pub fn preferred_parameters(probed: String, manifest: &str) -> (r: String)
    ensures
        r@ == (if crate::text::trim(manifest@).len() > 0 && manifest@ != "Unknown"@ { manifest@ } else { probed@ }),
{
    let c = chars_of(manifest);
    if crate::text::trim_chars(&c).len() > 0 && !eq_str(&c, "Unknown") {
        manifest.to_owned()
    } else {
        probed
    }
}


/// The architecture a model's configuration names: its `model_type` string, else
/// the first of its `architectures` when that is a string.
pub open spec fn config_architecture(config: Seq<char>) -> Option<Seq<char>> {
    match crate::json::json_str_at(config, "model_type"@) {
        Some(m) => Some(m),
        None => crate::json::first_item_string(crate::json::json_items_at(config, "architectures"@)),
    }
}

/// The architecture named by the JSON text of a model configuration.
pub fn architecture_from_config(config: &str) -> (r: Option<String>)
    ensures
        crate::text::opt_view(r) == config_architecture(config@),
{
    match crate::json::str_at(config, "model_type") {
        Some(m) => Some(m),
        None => crate::json::first_string_item(crate::json::items_at(config, "architectures")),
    }
}

/// What a hub model-info reply says: the raw architecture (from its `config`
/// object, else its own `model_type`, else empty) and its pipeline tag.
pub open spec fn hub_info_facts(reply: Seq<char>) -> (Seq<char>, Option<Seq<char>>) {
    let from_config = match crate::json::json_value_text_at(reply, "config"@) {
        Some(c) => or_else(config_architecture(c), Seq::empty()),
        None => Seq::empty(),
    };
    let arch = if from_config.len() == 0 {
        or_else(crate::json::json_str_at(reply, "model_type"@), Seq::empty())
    } else {
        from_config
    };
    (arch, crate::json::json_str_at(reply, "pipeline_tag"@))
}

/// The raw architecture and pipeline tag of the JSON text of a hub model-info reply.
pub fn hub_info_from_reply(reply: &str) -> (r: (String, Option<String>))
    ensures
        r.0@ == hub_info_facts(reply@).0,
        crate::text::opt_view(r.1) == hub_info_facts(reply@).1,
{
    let from_config = match crate::json::value_text_at(reply, "config") {
        Some(c) => match architecture_from_config(c.as_str()) {
            Some(a) => a,
            None => String::new(),
        },
        None => String::new(),
    };
    let arch = if crate::text::chars_of(from_config.as_str()).len() == 0 {
        match crate::json::str_at(reply, "model_type") {
            Some(m) => m,
            None => String::new(),
        }
    } else {
        from_config
    };
    (arch, crate::json::str_at(reply, "pipeline_tag"))
}

} // verus!
