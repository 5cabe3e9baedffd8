//! Architectural keyword lists per model slot and the matchers over them.
use vstd::prelude::*;
use crate::text::{contains_any, has_any_sub, lower_chars, lowercase};

verus! {

/// Chat & multimodal conversational slot.
pub const CHAT_KEYWORDS: [&'static str; 6] = [
    "instruct",
    "chat",
    "-it",
    "dialogue",
    "assistant",
    "conversational",
];

pub const MULTIMODAL_CHAT_KEYWORDS: [&'static str; 9] = [
    "qwen-vl",
    "qwen2-vl",
    "llava",
    "internvl",
    "phi-3-vision",
    "paligemma",
    "minicpm-v",
    "llama-vision",
    "pixtral",
];

/// Ingest document AI / OCR / spatial vision slot.
pub const INGEST_KEYWORDS: [&'static str; 10] = [
    "got-ocr",
    "nougat",
    "surya",
    "florence",
    "table-transformer",
    "detr",
    "sam-2",
    "sam2",
    "depth-anything",
    "document-ocr",
];

/// Multimodal & text embedding slot.
pub const EMBEDDING_KEYWORDS: [&'static str; 20] = [
    "embed",
    "embedding",
    "bge",
    "nomic",
    "gte",
    "minilm",
    "e5",
    "instructor",
    "sentence",
    "similarity",
    "snowflake-arctic-embed",
    "jina-embeddings",
    "text-embedding",
    "clip",
    "siglip",
    "fashion-clip",
    "dinov2",
    "colpali",
    "vit",
    "swin",
];

pub const EMBEDDING_ARCHITECTURES: [&'static str; 6] = [
    "bert",
    "roberta",
    "xlm-roberta",
    "modernbert",
    "deberta",
    "nomic-bert",
];

/// Text-to-speech slot.
pub const AUDIO_TTS_KEYWORDS: [&'static str; 14] = [
    "tts",
    "kokoro",
    "piper",
    "vits",
    "vocoder",
    "supertonic",
    "bark",
    "cosyvoice",
    "chattts",
    "parler",
    "fastspeech",
    "f5-tts",
    "e2-tts",
    "mms-tts",
];

/// Speech-to-text slot.
pub const AUDIO_ASR_KEYWORDS: [&'static str; 8] = [
    "whisper",
    "asr",
    "stt",
    "conformer",
    "wav2vec",
    "hubert",
    "moonshine",
    "sensevoice",
];

pub const AUDIO_CONVERSION_KEYWORDS: [&'static str; 4] = ["conversion", "demucs", "rvc", "sovits"];

/// Helper GGUF prefixes / suffixes.
pub const HELPER_GGUF_PATTERNS: [&'static str; 5] = ["mtp", "mmproj", "projector", "adapter", "lora"];

/// Some keyword occurs in the lower-cased text.
pub open spec fn matches_any_spec(text: Seq<char>, keywords: Seq<&str>) -> bool {
    contains_any(lowercase(text), keywords)
}

/// Does the text (lower-cased) contain any of the keywords?
pub fn matches_any(text: &str, keywords: &[&str]) -> (r: bool)
    ensures
        r == matches_any_spec(text@, keywords@),
{
    let lower = lower_chars(text);
    has_any_sub(&lower, keywords)
}

/// Embedding model identifier: an embedding keyword or an encoder architecture.
pub fn is_embedding_ident(text: &str) -> (r: bool)
    ensures
        r == (matches_any_spec(text@, EMBEDDING_KEYWORDS@) || matches_any_spec(
            text@,
            EMBEDDING_ARCHITECTURES@,
        )),
{
    matches_any(text, &EMBEDDING_KEYWORDS) || matches_any(text, &EMBEDDING_ARCHITECTURES)
}

/// Ingest OCR / document-AI model identifier.
pub fn is_ingest_ident(text: &str) -> (r: bool)
    ensures
        r == matches_any_spec(text@, INGEST_KEYWORDS@),
{
    matches_any(text, &INGEST_KEYWORDS)
}

/// Multimodal VLM chat model identifier.
pub fn is_vlm_chat_ident(text: &str) -> (r: bool)
    ensures
        r == matches_any_spec(text@, MULTIMODAL_CHAT_KEYWORDS@),
{
    matches_any(text, &MULTIMODAL_CHAT_KEYWORDS)
}

/// Text-to-speech model identifier.
pub fn is_tts_ident(text: &str) -> (r: bool)
    ensures
        r == matches_any_spec(text@, AUDIO_TTS_KEYWORDS@),
{
    matches_any(text, &AUDIO_TTS_KEYWORDS)
}

/// Speech-recognition model identifier.
pub fn is_asr_ident(text: &str) -> (r: bool)
    ensures
        r == matches_any_spec(text@, AUDIO_ASR_KEYWORDS@),
{
    matches_any(text, &AUDIO_ASR_KEYWORDS)
}

} // verus!
