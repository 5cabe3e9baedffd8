//! Capabilities a model is found to have, the slot it serves, and the tasks each
//! slot offers.
use vstd::prelude::*;
use crate::text::{eq_str, lower_chars, lowercase, replace_char, replace_char_chars, string_views};

verus! {

/// One file of an installed model.
pub struct RegistryModelFile {
    pub name: String,
    pub size_bytes: u64,
    pub is_primary: bool,
}

/// Descriptive metadata of an installed model.
pub struct RegistryModelMetadata {
    pub architecture: String,
    pub parameters: String,
    pub context_window: String,
    pub quantization: Option<String>,
    pub bit_depth: Option<String>,
    pub tts_family: Option<String>,
    pub stt_family: Option<String>,
    pub backend_type: Option<String>,
    pub think_start_tag: Option<String>,
    pub think_end_tag: Option<String>,
    pub chat_template: Option<String>,
}

/// The engine slot a model serves.
#[derive(Debug, Clone, Copy, PartialEq, Eq, Hash, Structural)]
pub enum SlotType {
    Chat,
    Ingest,
    Embedding,
    Tts,
    Stt,
}

/// Name of a slot.
pub open spec fn slot_name(s: SlotType) -> Seq<char> {
    match s {
        SlotType::Chat => "chat"@,
        SlotType::Ingest => "ingest"@,
        SlotType::Embedding => "embedding"@,
        SlotType::Tts => "tts"@,
        SlotType::Stt => "stt"@,
    }
}

/// The category name as matched: lower-cased, `_` read as `-`.
pub open spec fn category_key(cat: Seq<char>) -> Seq<char> {
    replace_char(lowercase(cat), '_', '-')
}

/// Slot of a category name; unknown names serve chat.
pub open spec fn slot_for_category(cat: Seq<char>) -> SlotType {
    let k = category_key(cat);
    if k == "chat"@ || k == "conversational"@ || k == "text-generation"@ {
        SlotType::Chat
    } else if k == "ingest"@ || k == "vision-ingest"@ || k == "ocr"@ || k == "doc-ai"@ {
        SlotType::Ingest
    } else if k == "embedding"@ || k == "embeddings"@ || k == "text-embedding"@ || k == "vision-embedding"@ {
        SlotType::Embedding
    } else if k == "tts"@ || k == "text-to-speech"@ || k == "audio"@ {
        SlotType::Tts
    } else if k == "stt"@ || k == "automatic-speech-recognition"@ || k == "asr"@ {
        SlotType::Stt
    } else {
        SlotType::Chat
    }
}

/// Everything discovery learns about a model.
pub struct ModelCapabilities {
    pub has_vision: bool,
    pub has_audio: bool,
    pub has_video: bool,
    pub has_file: bool,
    pub is_base: bool,
    pub is_instruct: bool,
    pub is_embedding: bool,
    pub is_feature_extraction: bool,
    pub is_vision_chat: bool,
    pub is_image_to_text: bool,
    pub is_vqa: bool,
    pub is_image_gen: bool,
    pub is_video_gen: bool,
    pub is_asr: bool,
    pub is_tts: bool,
    pub is_audio_to_audio: bool,
    pub is_audio_class: bool,
    pub chat_completion: bool,
    pub tts_family: Option<String>,
    pub stt_family: Option<String>,
    pub explicit_tasks: Vec<String>,
}

/// Mathematical view of `ModelCapabilities`.
pub struct CapsView {
    pub has_vision: bool,
    pub has_audio: bool,
    pub has_video: bool,
    pub has_file: bool,
    pub is_base: bool,
    pub is_instruct: bool,
    pub is_embedding: bool,
    pub is_feature_extraction: bool,
    pub is_vision_chat: bool,
    pub is_image_to_text: bool,
    pub is_vqa: bool,
    pub is_image_gen: bool,
    pub is_video_gen: bool,
    pub is_asr: bool,
    pub is_tts: bool,
    pub is_audio_to_audio: bool,
    pub is_audio_class: bool,
    pub chat_completion: bool,
    pub tts_family: Option<Seq<char>>,
    pub stt_family: Option<Seq<char>>,
    pub explicit_tasks: Seq<Seq<char>>,
}

pub open spec fn opt_chars(o: Option<String>) -> Option<Seq<char>> {
    match o {
        Some(s) => Some(s@),
        None => None,
    }
}

impl View for ModelCapabilities {
    type V = CapsView;

    open spec fn view(&self) -> CapsView {
        CapsView {
            has_vision: self.has_vision,
            has_audio: self.has_audio,
            has_video: self.has_video,
            has_file: self.has_file,
            is_base: self.is_base,
            is_instruct: self.is_instruct,
            is_embedding: self.is_embedding,
            is_feature_extraction: self.is_feature_extraction,
            is_vision_chat: self.is_vision_chat,
            is_image_to_text: self.is_image_to_text,
            is_vqa: self.is_vqa,
            is_image_gen: self.is_image_gen,
            is_video_gen: self.is_video_gen,
            is_asr: self.is_asr,
            is_tts: self.is_tts,
            is_audio_to_audio: self.is_audio_to_audio,
            is_audio_class: self.is_audio_class,
            chat_completion: self.chat_completion,
            tts_family: opt_chars(self.tts_family),
            stt_family: opt_chars(self.stt_family),
            explicit_tasks: string_views(self.explicit_tasks@),
        }
    }
}

/// Every flag set to `b`, no families, no explicit tasks.
pub open spec fn uniform_caps(b: bool) -> CapsView {
    CapsView {
        has_vision: b,
        has_audio: b,
        has_video: b,
        has_file: b,
        is_base: b,
        is_instruct: b,
        is_embedding: b,
        is_feature_extraction: b,
        is_vision_chat: b,
        is_image_to_text: b,
        is_vqa: b,
        is_image_gen: b,
        is_video_gen: b,
        is_asr: b,
        is_tts: b,
        is_audio_to_audio: b,
        is_audio_class: b,
        chat_completion: b,
        tts_family: None,
        stt_family: None,
        explicit_tasks: Seq::empty(),
    }
}

impl ModelCapabilities {
    fn uniform(b: bool) -> (r: Self)
        ensures
            r@ == uniform_caps(b),
    {
        let r = ModelCapabilities {
            has_vision: b,
            has_audio: b,
            has_video: b,
            has_file: b,
            is_base: b,
            is_instruct: b,
            is_embedding: b,
            is_feature_extraction: b,
            is_vision_chat: b,
            is_image_to_text: b,
            is_vqa: b,
            is_image_gen: b,
            is_video_gen: b,
            is_asr: b,
            is_tts: b,
            is_audio_to_audio: b,
            is_audio_class: b,
            chat_completion: b,
            tts_family: None,
            stt_family: None,
            explicit_tasks: Vec::new(),
        };
        assert(r@.explicit_tasks =~= Seq::<Seq<char>>::empty());
        r
    }

    /// Every capability flag set, no families, no explicit tasks.
    pub fn all_true() -> (r: Self)
        ensures
            r@ == uniform_caps(true),
    {
        Self::uniform(true)
    }
}

impl Default for ModelCapabilities {
    fn default() -> (r: Self)
        ensures
            r@ == uniform_caps(false),
    {
        Self::uniform(false)
    }
}

/// Tasks a slot offers for a model with capabilities `c`.
pub open spec fn slot_tasks(s: SlotType, c: CapsView) -> Seq<Seq<char>> {
    match s {
        SlotType::Chat => {
            let base = seq!["chat-completion"@];
            let v = if c.has_vision || c.is_vision_chat {
                base + seq!["image-text-to-text"@, "image-to-text"@, "visual-question-answering"@]
            } else {
                base
            };
            let w = if c.has_video { v.push("video-text-to-text"@) } else { v };
            if c.has_audio { w.push("audio-text-to-text"@) } else { w }
        },
        SlotType::Embedding => seq![
            "sentence-similarity"@,
            "feature-extraction"@,
            "text-classification"@,
            "zero-shot-image-classification"@,
            "image-feature-extraction"@,
            "visual-document-retrieval"@,
        ],
        SlotType::Ingest => seq![
            "document-ocr"@,
            "document-question-answering"@,
            "table-extraction"@,
            "object-detection"@,
            "mask-generation"@,
        ],
        SlotType::Tts => seq!["text-to-speech"@, "voice-synthesis"@],
        SlotType::Stt => seq!["automatic-speech-recognition"@, "audio-classification"@],
    }
}

fn push_str(v: &mut Vec<String>, s: &str)
    ensures
        string_views(final(v)@) == string_views(old(v)@).push(s@),
{
    v.push(s.to_owned());
    assert(string_views(v@) =~= string_views(old(v)@).push(s@));
}

fn strings_of(items: &[&str]) -> (r: Vec<String>)
    ensures
        string_views(r@) == crate::text::views(items@),
{
    let mut r: Vec<String> = Vec::new();
    let mut i: usize = 0;
    while i < items.len()
        invariant
            i <= items@.len(),
            string_views(r@) == crate::text::views(items@.subrange(0, i as int)),
        decreases items.len() - i,
    {
        push_str(&mut r, items[i]);
        i = i + 1;
        assert(crate::text::views(items@.subrange(0, i as int)) =~= crate::text::views(
            items@.subrange(0, i - 1),
        ).push(items@[i - 1]@));
    }
    assert(items@.subrange(0, items@.len() as int) =~= items@);
    r
}

pub const EMBEDDING_SLOT_TASKS: [&'static str; 6] = [
    "sentence-similarity",
    "feature-extraction",
    "text-classification",
    "zero-shot-image-classification",
    "image-feature-extraction",
    "visual-document-retrieval",
];

pub const INGEST_SLOT_TASKS: [&'static str; 5] = [
    "document-ocr",
    "document-question-answering",
    "table-extraction",
    "object-detection",
    "mask-generation",
];

pub const TTS_SLOT_TASKS: [&'static str; 2] = ["text-to-speech", "voice-synthesis"];

pub const STT_SLOT_TASKS: [&'static str; 2] = ["automatic-speech-recognition", "audio-classification"];

impl SlotType {
    pub fn as_str(&self) -> (r: &'static str)
        ensures
            r@ == slot_name(*self),
    {
        match self {
            SlotType::Chat => "chat",
            SlotType::Ingest => "ingest",
            SlotType::Embedding => "embedding",
            SlotType::Tts => "tts",
            SlotType::Stt => "stt",
        }
    }

    /// Slot of a category name (case-insensitive, `_` read as `-`); unknown names
    /// serve chat.
    pub fn from_category(cat: &str) -> (r: SlotType)
        ensures
            r == slot_for_category(cat@),
    {
        let l = lower_chars(cat);
        let k = replace_char_chars(&l, '_', '-');
        if eq_str(&k, "chat") || eq_str(&k, "conversational") || eq_str(&k, "text-generation") {
            SlotType::Chat
        } else if eq_str(&k, "ingest") || eq_str(&k, "vision-ingest") || eq_str(&k, "ocr") || eq_str(
            &k,
            "doc-ai",
        ) {
            SlotType::Ingest
        } else if eq_str(&k, "embedding") || eq_str(&k, "embeddings") || eq_str(&k, "text-embedding")
            || eq_str(&k, "vision-embedding") {
            SlotType::Embedding
        } else if eq_str(&k, "tts") || eq_str(&k, "text-to-speech") || eq_str(&k, "audio") {
            SlotType::Tts
        } else if eq_str(&k, "stt") || eq_str(&k, "automatic-speech-recognition") || eq_str(&k, "asr") {
            SlotType::Stt
        } else {
            SlotType::Chat
        }
    }

    /// Tasks the slot offers for a model with these capabilities.
    pub fn supported_tasks(&self, caps: &ModelCapabilities) -> (r: Vec<String>)
        ensures
            string_views(r@) == slot_tasks(*self, caps@),
    {
        match self {
            SlotType::Chat => {
                let mut tasks: Vec<String> = Vec::new();
                push_str(&mut tasks, "chat-completion");
                if caps.has_vision || caps.is_vision_chat {
                    push_str(&mut tasks, "image-text-to-text");
                    push_str(&mut tasks, "image-to-text");
                    push_str(&mut tasks, "visual-question-answering");
                }
                if caps.has_video {
                    push_str(&mut tasks, "video-text-to-text");
                }
                if caps.has_audio {
                    push_str(&mut tasks, "audio-text-to-text");
                }
                assert(string_views(tasks@) =~= slot_tasks(*self, caps@));
                tasks
            },
            SlotType::Embedding => {
                let r = strings_of(&EMBEDDING_SLOT_TASKS);
                assert(string_views(r@) =~= slot_tasks(*self, caps@));
                r
            },
            SlotType::Ingest => {
                let r = strings_of(&INGEST_SLOT_TASKS);
                assert(string_views(r@) =~= slot_tasks(*self, caps@));
                r
            },
            SlotType::Tts => {
                let r = strings_of(&TTS_SLOT_TASKS);
                assert(string_views(r@) =~= slot_tasks(*self, caps@));
                r
            },
            SlotType::Stt => {
                let r = strings_of(&STT_SLOT_TASKS);
                assert(string_views(r@) =~= slot_tasks(*self, caps@));
                r
            },
        }
    }

    /// Every task the slot of a category can offer (for a model with every capability).
    pub fn get_tasks_for_category(category: &str) -> (r: Vec<String>)
        ensures
            string_views(r@) == slot_tasks(slot_for_category(category@), uniform_caps(true)),
    {
        let caps = ModelCapabilities::all_true();
        let slot = Self::from_category(category);
        slot.supported_tasks(&caps)
    }
}

} // verus!
