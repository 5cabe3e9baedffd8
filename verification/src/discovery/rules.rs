//! Capability rules: what the probe's hints and the declared tasks make of a model
//! (chat, embedding, vision, audio), and the task lists each kind of model offers.
use vstd::prelude::*;
use crate::text::{
    chars_of, contains, contains_any, find_word, has_any_sub, has_sub, lower_chars, lowercase,
    replace_char, replace_char_chars, string_of, string_views, strings_contain, table_lookup,
};
use crate::discovery::capabilities::{CapsView, ModelCapabilities};

verus! {

// ───────────────────────── chat ─────────────────────────

pub const INSTRUCT_MARKERS: [&'static str; 3] = ["instruct", "chat", "-it"];
pub const CODER_MARKERS: [&'static str; 3] = ["coder", "starcoder", "deepseek-coder"];

/// Chat rules: instruction-tuned when a chat template or an instruct marker is
/// present, base otherwise; coder models read files.
pub open spec fn chat_rules(c: CapsView, arch: Seq<char>, has_chat_template: bool) -> CapsView {
    let instruct = has_chat_template || contains_any(arch, INSTRUCT_MARKERS@);
    CapsView {
        is_instruct: if instruct { true } else { c.is_instruct },
        is_base: if instruct { c.is_base } else { true },
        has_file: if contains_any(arch, CODER_MARKERS@) { true } else { c.has_file },
        ..c
    }
}

#[verifier::spinoff_prover]
pub fn evaluate_chat_rules(arch_lower: &str, has_chat_template: bool, caps: &mut ModelCapabilities)
    ensures
        final(caps)@ == chat_rules(old(caps)@, arch_lower@, has_chat_template),
{
    let a = chars_of(arch_lower);
    let instruct = has_chat_template || has_any_sub(&a, &INSTRUCT_MARKERS);
    let coder = has_any_sub(&a, &CODER_MARKERS);
    let ghost before = caps@;
    if instruct {
        caps.is_instruct = true;
    } else {
        caps.is_base = true;
    }
    if coder {
        caps.has_file = true;
    }
    proof {
        assert(caps@.explicit_tasks == before.explicit_tasks);
    }
}

/// Chat tasks of a model.
pub open spec fn chat_tasks(c: CapsView) -> Seq<Seq<char>> {
    let a = if c.is_base { seq!["text-generation"@] } else { Seq::empty() };
    let b = if c.is_instruct { a.push("chat-completion"@) } else { a };
    let d = if b.len() == 0 { b.push("chat-completion"@) } else { b };
    let e = if c.has_vision { d.push("multimodal-vision"@) } else { d };
    let f = if c.has_video { e.push("multimodal-video"@) } else { e };
    let g = if c.has_file { f.push("multimodal-file"@) } else { f };
    if c.has_audio { g.push("multimodal-audio"@) } else { g }
}

fn push_str(v: &mut Vec<String>, s: &str)
    ensures
        string_views(final(v)@) == string_views(old(v)@).push(s@),
{
    v.push(s.to_owned());
    assert(string_views(v@) =~= string_views(old(v)@).push(s@));
}

fn push_string(v: &mut Vec<String>, s: String)
    ensures
        string_views(final(v)@) == string_views(old(v)@).push(s@),
{
    let ghost sv = s@;
    v.push(s);
    assert(string_views(v@) =~= string_views(old(v)@).push(sv));
}

pub fn get_chat_tasks(caps: &ModelCapabilities) -> (r: Vec<String>)
    ensures
        string_views(r@) == chat_tasks(caps@),
{
    let mut tasks: Vec<String> = Vec::new();
    assert(string_views(tasks@) =~= Seq::<Seq<char>>::empty());
    if caps.is_base {
        push_str(&mut tasks, "text-generation");
    }
    if caps.is_instruct {
        push_str(&mut tasks, "chat-completion");
    }
    if tasks.len() == 0 {
        push_str(&mut tasks, "chat-completion");
    }
    if caps.has_vision {
        push_str(&mut tasks, "multimodal-vision");
    }
    if caps.has_video {
        push_str(&mut tasks, "multimodal-video");
    }
    if caps.has_file {
        push_str(&mut tasks, "multimodal-file");
    }
    if caps.has_audio {
        push_str(&mut tasks, "multimodal-audio");
    }
    tasks
}

// ───────────────────────── embedding ─────────────────────────

pub const EMBEDDING_ARCH_MARKERS: [&'static str; 6] = ["bert", "nomic", "bge", "gte", "e5", "minilm"];

/// Embedding rules: a declared embedding task, pooling, or an embedding
/// architecture makes the model an embedder and feature extractor.
pub open spec fn embedding_rules(c: CapsView, arch: Seq<char>, has_pooling: bool) -> CapsView {
    let declared = c.explicit_tasks.contains("embedding"@) || c.explicit_tasks.contains(
        "feature-extraction"@,
    );
    if declared || has_pooling || contains_any(arch, EMBEDDING_ARCH_MARKERS@) {
        CapsView { is_embedding: true, is_feature_extraction: true, ..c }
    } else {
        c
    }
}

pub fn evaluate_embedding_rules(arch_lower: &str, has_pooling: bool, caps: &mut ModelCapabilities)
    ensures
        final(caps)@ == embedding_rules(old(caps)@, arch_lower@, has_pooling),
{
    let declared = strings_contain(caps.explicit_tasks.as_slice(), "embedding") || strings_contain(
        caps.explicit_tasks.as_slice(),
        "feature-extraction",
    );
    let a = chars_of(arch_lower);
    if declared || has_pooling || has_any_sub(&a, &EMBEDDING_ARCH_MARKERS) {
        caps.is_embedding = true;
        caps.is_feature_extraction = true;
    }
}

/// Embedding tasks of a model.
pub open spec fn embedding_tasks(c: CapsView) -> Seq<Seq<char>> {
    let a = seq!["embedding"@];
    let b = if c.is_feature_extraction { a.push("feature-extraction"@) } else { a };
    let d = if c.has_vision { b.push("vision-embedding"@) } else { b };
    if c.has_audio { d.push("audio-embedding"@) } else { d }
}

pub fn get_embedding_tasks(caps: &ModelCapabilities) -> (r: Vec<String>)
    ensures
        string_views(r@) == embedding_tasks(caps@),
{
    let mut tasks: Vec<String> = Vec::new();
    assert(string_views(tasks@) =~= Seq::<Seq<char>>::empty());
    push_str(&mut tasks, "embedding");
    if caps.is_feature_extraction {
        push_str(&mut tasks, "feature-extraction");
    }
    if caps.has_vision {
        push_str(&mut tasks, "vision-embedding");
    }
    if caps.has_audio {
        push_str(&mut tasks, "audio-embedding");
    }
    tasks
}

// ───────────────────────── vision ─────────────────────────

/// Vision rules: vision keys or tensors give vision, and vision chat to an
/// instruction-tuned model.
pub open spec fn vision_rules(c: CapsView, has_vision_keys: bool, has_vision_tensors: bool) -> CapsView {
    if has_vision_keys || has_vision_tensors {
        CapsView { has_vision: true, is_vision_chat: if c.is_instruct { true } else { c.is_vision_chat }, ..c }
    } else {
        c
    }
}

pub fn evaluate_vision_rules(
    _arch_lower: &str,
    has_vision_keys: bool,
    has_vision_tensors: bool,
    caps: &mut ModelCapabilities,
)
    ensures
        final(caps)@ == vision_rules(old(caps)@, has_vision_keys, has_vision_tensors),
{
    if has_vision_keys || has_vision_tensors {
        caps.has_vision = true;
        if caps.is_instruct {
            caps.is_vision_chat = true;
        }
    }
}

pub const VISION_TASK_ALIASES: [&'static str; 60] = [
    "visual_question_answering", "vqa", "doc_vqa", "document_question_answering",
    "document_understanding", "visual_document_understanding", "multimodal_dialogue", "visual_dialogue",
    "vision_chat", "multimodal_chat", "vlm", "image_to_text",
    "captioning", "image_captioning", "ocr", "optical_character_recognition",
    "document_parsing", "image_classification", "vision_feature_extraction", "feature_extraction",
    "image_embedding", "zero_shot_image_classification", "clip", "object_detection",
    "detection", "zero_shot_object_detection", "grounding", "pose_estimation",
    "keypoint_detection", "object_tracking", "video_tracking", "image_segmentation",
    "segmentation", "mask_generation", "sam", "depth_estimation",
    "monocular_depth", "text_to_image", "image_generation", "diffusion",
    "image_to_image", "img2img", "image_inpainting", "inpainting",
    "super_resolution", "image_upscaling", "upscaling", "text_to_video",
    "video_generation", "image_to_video", "img2vid", "video_to_video",
    "vid2vid", "video_classification", "action_recognition", "video_captioning",
    "video_to_text", "3d_reconstruction", "nerf", "gaussian_splatting",
];

pub const VISION_TASK_NAMES: [&'static str; 60] = [
    "visual-question-answering", "visual-question-answering", "document-question-answering", "document-question-answering",
    "document-question-answering", "document-question-answering", "multimodal-dialogue", "multimodal-dialogue",
    "multimodal-dialogue", "multimodal-dialogue", "multimodal-dialogue", "image-to-text",
    "image-to-text", "image-to-text", "optical-character-recognition", "optical-character-recognition",
    "optical-character-recognition", "vision-feature-extraction", "vision-feature-extraction", "vision-feature-extraction",
    "vision-feature-extraction", "zero-shot-image-classification", "zero-shot-image-classification", "object-detection",
    "object-detection", "zero-shot-object-detection", "zero-shot-object-detection", "pose-estimation",
    "pose-estimation", "object-tracking", "object-tracking", "image-segmentation",
    "image-segmentation", "image-segmentation", "image-segmentation", "depth-estimation",
    "depth-estimation", "text-to-image", "text-to-image", "text-to-image",
    "image-to-image", "image-to-image", "image-inpainting", "image-inpainting",
    "super-resolution", "super-resolution", "super-resolution", "text-to-video",
    "text-to-video", "image-to-video", "image-to-video", "video-to-video",
    "video-to-video", "video-classification", "video-classification", "video-captioning",
    "video-captioning", "3d-reconstruction", "3d-reconstruction", "3d-reconstruction",
];


/// A task name as matched: lower-cased, `-` read as `_`.
pub open spec fn task_key(t: Seq<char>) -> Seq<char> {
    replace_char(lowercase(t), '-', '_')
}

/// Canonical vision task name; unknown names are kept with `_` written as `-`.
pub open spec fn normalize_vision(t: Seq<char>) -> Seq<char> {
    table_lookup(
        VISION_TASK_ALIASES@,
        VISION_TASK_NAMES@,
        task_key(t),
        replace_char(task_key(t), '_', '-'),
    )
}

fn normalize_vision_task(task: &str) -> (r: String)
    ensures
        r@ == normalize_vision(task@),
{
    let l = lower_chars(task);
    let k = replace_char_chars(&l, '-', '_');
    match find_word(&VISION_TASK_ALIASES, &k) {
        Some(i) => VISION_TASK_NAMES[i].to_owned(),
        None => string_of(&replace_char_chars(&k, '_', '-')),
    }
}

/// Vision tasks of a model: its declared tasks normalized, or those its flags give.
pub open spec fn vision_tasks(c: CapsView) -> Seq<Seq<char>> {
    if c.explicit_tasks.len() > 0 {
        Seq::new(c.explicit_tasks.len(), |i: int| normalize_vision(c.explicit_tasks[i]))
    } else {
        let a = if c.is_vision_chat || (c.has_vision && c.is_instruct) {
            seq!["multimodal-dialogue"@]
        } else {
            Seq::empty()
        };
        let b = if c.is_image_to_text { a.push("image-to-text"@) } else { a };
        let d = if c.is_vqa { b.push("visual-question-answering"@) } else { b };
        let e = if c.is_image_gen { d.push("text-to-image"@) } else { d };
        let f = if c.is_video_gen || c.has_video { e.push("text-to-video"@) } else { e };
        if f.len() == 0 && c.has_vision { f.push("vision-feature-extraction"@) } else { f }
    }
}

pub fn get_vision_tasks(caps: &ModelCapabilities) -> (r: Vec<String>)
    ensures
        string_views(r@) == vision_tasks(caps@),
{
    let mut tasks: Vec<String> = Vec::new();
    if caps.explicit_tasks.len() > 0 {
        let ghost src = string_views(caps.explicit_tasks@);
        let mut i: usize = 0;
        while i < caps.explicit_tasks.len()
            invariant
                i <= caps.explicit_tasks@.len(),
                src == string_views(caps.explicit_tasks@),
                string_views(tasks@) == Seq::new(i as nat, |j: int| normalize_vision(src[j])),
            decreases caps.explicit_tasks.len() - i,
        {
            let t = normalize_vision_task(caps.explicit_tasks[i].as_str());
            proof {
                assert(src[i as int] == caps.explicit_tasks@[i as int]@);
            }
            push_string(&mut tasks, t);
            i = i + 1;
            assert(string_views(tasks@) =~= Seq::new(i as nat, |j: int| normalize_vision(src[j])));
        }
        return tasks;
    }
    assert(string_views(tasks@) =~= Seq::<Seq<char>>::empty());
    if caps.is_vision_chat || (caps.has_vision && caps.is_instruct) {
        push_str(&mut tasks, "multimodal-dialogue");
    }
    if caps.is_image_to_text {
        push_str(&mut tasks, "image-to-text");
    }
    if caps.is_vqa {
        push_str(&mut tasks, "visual-question-answering");
    }
    if caps.is_image_gen {
        push_str(&mut tasks, "text-to-image");
    }
    if caps.is_video_gen || caps.has_video {
        push_str(&mut tasks, "text-to-video");
    }
    if tasks.len() == 0 && caps.has_vision {
        push_str(&mut tasks, "vision-feature-extraction");
    }
    tasks
}

// ───────────────────────── audio ─────────────────────────

/// The kind of audio model: the declared task (speech to text, then text to speech,
/// voice conversion, classification) or else the architecture (`whisper` for speech
/// recognition, synthesis otherwise) decides which one flag is set.
pub open spec fn audio_kind(c: CapsView, stt: bool, tts: bool, vc: bool, ac: bool, whisper: bool) -> CapsView {
    let undeclared = !stt && !tts && !vc && !ac;
    CapsView {
        is_asr: c.is_asr || stt || (undeclared && whisper),
        is_tts: c.is_tts || (!stt && tts) || (undeclared && !whisper),
        is_audio_to_audio: c.is_audio_to_audio || (!stt && !tts && vc),
        is_audio_class: c.is_audio_class || (!stt && !tts && !vc && ac),
        ..c
    }
}

/// The named family recorded, if any.
pub open spec fn with_family(c: CapsView, family: Option<Seq<char>>) -> CapsView {
    match family {
        Some(f) => CapsView { tts_family: Some(f), ..c },
        None => c,
    }
}

/// The audio update: with an audio signal, the model has audio, gets its kind, and
/// a named family is recorded.
pub open spec fn audio_update(
    c: CapsView,
    signal: bool,
    stt: bool,
    tts: bool,
    vc: bool,
    ac: bool,
    whisper: bool,
    family: Option<Seq<char>>,
) -> CapsView {
    if signal {
        with_family(audio_kind(CapsView { has_audio: true, ..c }, stt, tts, vc, ac, whisper), family)
    } else {
        c
    }
}

/// Audio rules: a declared audio task, audio keys or audio tensors give audio.
pub open spec fn audio_rules(c: CapsView, arch: Seq<char>, has_audio_keys: bool, has_audio_tensors: bool) -> CapsView {
    let t = c.explicit_tasks;
    let stt = t.contains("speech_to_text"@);
    let tts = t.contains("text_to_speech"@);
    let vc = t.contains("voice_conversion"@);
    let ac = t.contains("audio_classification"@);
    audio_update(
        c,
        tts || stt || vc || ac || has_audio_keys || has_audio_tensors,
        stt,
        tts,
        vc,
        ac,
        contains(arch, "whisper"@),
        audio_family(arch),
    )
}

/// Audio model family named by the architecture, first match wins.
pub open spec fn audio_family(arch: Seq<char>) -> Option<Seq<char>> {
    if contains(arch, "kokoro"@) {
        Some("kokoro"@)
    } else if contains(arch, "supertonic"@) || contains(arch, "luxtts"@) {
        Some("supertonic"@)
    } else if contains(arch, "matcha"@) {
        Some("cosyvoice_matcha"@)
    } else if contains(arch, "vits"@) || contains(arch, "piper"@) {
        Some("vits_piper"@)
    } else if contains(arch, "cosyvoice"@) {
        Some("cosyvoice_matcha"@)
    } else if contains(arch, "audio8"@) {
        Some("audio8"@)
    } else if contains(arch, "chatterbox"@) {
        Some("chatterbox"@)
    } else if contains(arch, "whisper"@) {
        Some("whisper"@)
    } else {
        None
    }
}

fn audio_family_of(arch: &[char]) -> (r: Option<&'static str>)
    ensures
        match r {
            Some(f) => audio_family(arch@) == Some(f@),
            None => audio_family(arch@) is None,
        },
{
    if has_sub(arch, "kokoro") {
        Some("kokoro")
    } else if has_sub(arch, "supertonic") || has_sub(arch, "luxtts") {
        Some("supertonic")
    } else if has_sub(arch, "matcha") {
        Some("cosyvoice_matcha")
    } else if has_sub(arch, "vits") || has_sub(arch, "piper") {
        Some("vits_piper")
    } else if has_sub(arch, "cosyvoice") {
        Some("cosyvoice_matcha")
    } else if has_sub(arch, "audio8") {
        Some("audio8")
    } else if has_sub(arch, "chatterbox") {
        Some("chatterbox")
    } else if has_sub(arch, "whisper") {
        Some("whisper")
    } else {
        None
    }
}

fn apply_audio_kind(caps: &mut ModelCapabilities, stt: bool, tts: bool, vc: bool, ac: bool, whisper: bool)
    ensures
        final(caps)@ == audio_kind(old(caps)@, stt, tts, vc, ac, whisper),
{
    let undeclared = !stt && !tts && !vc && !ac;
    let asr = caps.is_asr || stt || (undeclared && whisper);
    let tts_flag = caps.is_tts || (!stt && tts) || (undeclared && !whisper);
    let a2a = caps.is_audio_to_audio || (!stt && !tts && vc);
    let class = caps.is_audio_class || (!stt && !tts && !vc && ac);
    set_audio_kind_flags(caps, asr, tts_flag, a2a, class);
}

fn set_audio_kind_flags(caps: &mut ModelCapabilities, asr: bool, tts: bool, a2a: bool, class: bool)
    ensures
        final(caps)@ == (CapsView {
            is_asr: asr,
            is_tts: tts,
            is_audio_to_audio: a2a,
            is_audio_class: class,
            ..old(caps)@
        }),
{
    caps.is_asr = asr;
    caps.is_tts = tts;
    caps.is_audio_to_audio = a2a;
    caps.is_audio_class = class;
}

fn apply_family(caps: &mut ModelCapabilities, family: Option<&'static str>)
    ensures
        final(caps)@ == with_family(
            old(caps)@,
            match family {
                Some(f) => Some(f@),
                None => None,
            },
        ),
{
    if let Some(f) = family {
        caps.tts_family = Some(f.to_owned());
    }
}

fn set_has_audio(caps: &mut ModelCapabilities)
    ensures
        final(caps)@ == (CapsView { has_audio: true, ..old(caps)@ }),
{
    caps.has_audio = true;
}

fn apply_audio_update(
    caps: &mut ModelCapabilities,
    signal: bool,
    stt: bool,
    tts: bool,
    vc: bool,
    ac: bool,
    whisper: bool,
    family: Option<&'static str>,
)
    ensures
        final(caps)@ == audio_update(
            old(caps)@,
            signal,
            stt,
            tts,
            vc,
            ac,
            whisper,
            match family {
                Some(f) => Some(f@),
                None => None,
            },
        ),
{
    if signal {
        set_has_audio(caps);
        apply_audio_kind(caps, stt, tts, vc, ac, whisper);
        apply_family(caps, family);
    }
}

pub fn evaluate_audio_rules(
    arch_lower: &str,
    has_audio_keys: bool,
    has_audio_tensors: bool,
    caps: &mut ModelCapabilities,
)
    ensures
        final(caps)@ == audio_rules(old(caps)@, arch_lower@, has_audio_keys, has_audio_tensors),
{
    let stt = strings_contain(caps.explicit_tasks.as_slice(), "speech_to_text");
    let tts = strings_contain(caps.explicit_tasks.as_slice(), "text_to_speech");
    let vc = strings_contain(caps.explicit_tasks.as_slice(), "voice_conversion");
    let ac = strings_contain(caps.explicit_tasks.as_slice(), "audio_classification");
    let a = chars_of(arch_lower);
    let whisper = has_sub(&a, "whisper");
    let family = audio_family_of(&a);
    apply_audio_update(
        caps,
        tts || stt || vc || ac || has_audio_keys || has_audio_tensors,
        stt,
        tts,
        vc,
        ac,
        whisper,
        family,
    );
}

pub const AUDIO_TASK_ALIASES: [&'static str; 38] = [
    "automatic_speech_recognition", "asr", "speech_recognition",
    "speech_translation", "translation",
    "tts", "text_to_speech",
    "voice_conversion", "audio_to_audio",
    "audio_classification", "sound_classification",
    "speaker_identification", "speaker_id",
    "speaker_verification",
    "speaker_diarization", "diarization",
    "emotion_recognition", "speech_emotion_recognition",
    "language_identification", "lang_id",
    "keyword_spotting", "kws",
    "wake_word_detection", "wake_word",
    "voice_activity_detection", "vad",
    "noise_reduction", "denoiser",
    "source_separation", "speech_separation",
    "audio_enhancement", "speech_enhancement",
    "music_generation", "text_to_music",
    "music_classification",
    "audio_embedding", "feature_extraction",
    "audio_captioning",
];

pub const AUDIO_TASK_NAMES: [&'static str; 38] = [
    "speech_to_text", "speech_to_text", "speech_to_text",
    "speech_translation", "speech_translation",
    "text_to_speech", "text_to_speech",
    "voice_conversion", "voice_conversion",
    "audio_classification", "audio_classification",
    "speaker_identification", "speaker_identification",
    "speaker_verification",
    "speaker_diarization", "speaker_diarization",
    "emotion_recognition", "emotion_recognition",
    "language_identification", "language_identification",
    "keyword_spotting", "keyword_spotting",
    "wake_word_detection", "wake_word_detection",
    "voice_activity_detection", "voice_activity_detection",
    "noise_reduction", "noise_reduction",
    "source_separation", "source_separation",
    "audio_enhancement", "audio_enhancement",
    "music_generation", "music_generation",
    "music_classification",
    "audio_embedding", "audio_embedding",
    "audio_captioning",
];

/// Canonical audio task name; unknown names are kept as matched.
pub open spec fn normalize_audio(t: Seq<char>) -> Seq<char> {
    table_lookup(AUDIO_TASK_ALIASES@, AUDIO_TASK_NAMES@, task_key(t), task_key(t))
}

fn normalize_audio_task(task: &str) -> (r: String)
    ensures
        r@ == normalize_audio(task@),
{
    let l = lower_chars(task);
    let k = replace_char_chars(&l, '-', '_');
    match find_word(&AUDIO_TASK_ALIASES, &k) {
        Some(i) => AUDIO_TASK_NAMES[i].to_owned(),
        None => string_of(&k),
    }
}

/// Audio tasks of a model: its declared tasks normalized, or those its flags give
/// (speech recognition when none does).
pub open spec fn audio_tasks(c: CapsView) -> Seq<Seq<char>> {
    if c.explicit_tasks.len() > 0 {
        Seq::new(c.explicit_tasks.len(), |i: int| normalize_audio(c.explicit_tasks[i]))
    } else {
        let a = if c.is_asr { seq!["speech_to_text"@] } else { Seq::empty() };
        let b = if c.is_tts { a.push("text_to_speech"@) } else { a };
        let d = if c.is_audio_to_audio { b.push("voice_conversion"@) } else { b };
        let e = if c.is_audio_class { d.push("audio_classification"@) } else { d };
        if e.len() == 0 { e.push("speech_to_text"@) } else { e }
    }
}

pub fn get_audio_tasks(caps: &ModelCapabilities) -> (r: Vec<String>)
    ensures
        string_views(r@) == audio_tasks(caps@),
{
    let mut tasks: Vec<String> = Vec::new();
    if caps.explicit_tasks.len() > 0 {
        let ghost src = string_views(caps.explicit_tasks@);
        let mut i: usize = 0;
        while i < caps.explicit_tasks.len()
            invariant
                i <= caps.explicit_tasks@.len(),
                src == string_views(caps.explicit_tasks@),
                string_views(tasks@) == Seq::new(i as nat, |j: int| normalize_audio(src[j])),
            decreases caps.explicit_tasks.len() - i,
        {
            let t = normalize_audio_task(caps.explicit_tasks[i].as_str());
            proof {
                assert(src[i as int] == caps.explicit_tasks@[i as int]@);
            }
            push_string(&mut tasks, t);
            i = i + 1;
            assert(string_views(tasks@) =~= Seq::new(i as nat, |j: int| normalize_audio(src[j])));
        }
        return tasks;
    }
    assert(string_views(tasks@) =~= Seq::<Seq<char>>::empty());
    if caps.is_asr {
        push_str(&mut tasks, "speech_to_text");
    }
    if caps.is_tts {
        push_str(&mut tasks, "text_to_speech");
    }
    if caps.is_audio_to_audio {
        push_str(&mut tasks, "voice_conversion");
    }
    if caps.is_audio_class {
        push_str(&mut tasks, "audio_classification");
    }
    if tasks.len() == 0 {
        push_str(&mut tasks, "speech_to_text");
    }
    tasks
}

} // verus!
