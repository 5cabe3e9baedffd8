//! Standard HuggingFace pipeline tags per model slot.
use vstd::prelude::*;

verus! {

/// Chat & multimodal conversational models (`/v1/chat/completions`).
pub const HF_TAGS_CHAT: [&'static str; 11] = [
    "text-generation",
    "chat-completion",
    "conversational",
    "image-text-to-text",
    "image-to-text",
    "video-text-to-text",
    "audio-text-to-text",
    "visual-question-answering",
    "summarization",
    "translation",
    "any-to-any",
];

/// Ingest / document AI / spatial vision models (`/v1/ingest`).
pub const HF_TAGS_INGEST: [&'static str; 10] = [
    "document-ocr",
    "document-question-answering",
    "table-extraction",
    "object-detection",
    "zero-shot-object-detection",
    "mask-generation",
    "image-segmentation",
    "instance-segmentation",
    "depth-estimation",
    "keypoint-detection",
];

/// Multimodal & text embedding models (`/v1/embeddings`).
pub const HF_TAGS_EMBEDDING: [&'static str; 11] = [
    "sentence-similarity",
    "feature-extraction",
    "text-classification",
    "token-classification",
    "fill-mask",
    "multiple-choice",
    "question-answering",
    "zero-shot-image-classification",
    "image-feature-extraction",
    "visual-document-retrieval",
    "keypoint-matching",
];

/// Text-to-speech models (`/v1/audio/speech`).
pub const HF_TAGS_TTS: [&'static str; 2] = ["text-to-speech", "voice-synthesis"];

/// Speech recognition models (`/v1/audio/transcriptions`).
pub const HF_TAGS_STT: [&'static str; 2] = ["automatic-speech-recognition", "audio-classification"];

} // verus!
