//! Model slots of the engine and the tasks each slot serves.
use vstd::prelude::*;
use crate::text::{contains, has_sub, lemma_first_char_absent, lower_chars, lowercase, string_views};
use crate::taxonomy::rules::ModelCapabilities;

verus! {

/// The five sovereign model slots.
#[derive(Debug, Clone, Copy, PartialEq, Eq, Hash, Structural)]
pub enum SlotType {
    Chat,
    Ingest,
    Embedding,
    Tts,
    Stt,
}

/// Category name of a slot.
pub open spec fn slot_name(s: SlotType) -> Seq<char> {
    match s {
        SlotType::Chat => "chat"@,
        SlotType::Ingest => "ingest"@,
        SlotType::Embedding => "embedding"@,
        SlotType::Tts => "tts"@,
        SlotType::Stt => "stt"@,
    }
}

/// Slot of a free-form category name, by keyword on its lower-cased form, first
/// rule wins.
pub open spec fn slot_of_category(cat: Seq<char>) -> SlotType {
    slot_of_lowered(lowercase(cat))
}

/// Slot of an already lower-cased category name, by keyword, first rule wins.
pub open spec fn slot_of_lowered(c: Seq<char>) -> SlotType {
    if contains(c, "embed"@) {
        SlotType::Embedding
    } else if contains(c, "ingest"@) || contains(c, "ocr"@) || contains(c, "vision"@) {
        SlotType::Ingest
    } else if contains(c, "tts"@) || contains(c, "audio"@) || contains(c, "voice"@) {
        SlotType::Tts
    } else if contains(c, "stt"@) || contains(c, "asr"@) || contains(c, "whisper"@) {
        SlotType::Stt
    } else {
        SlotType::Chat
    }
}

/// Tasks a slot serves; vision adds one task to chat and embedding slots.
pub open spec fn slot_tasks(s: SlotType, has_vision: bool) -> Seq<Seq<char>> {
    match s {
        SlotType::Chat => if has_vision {
            seq!["text-generation"@, "chat-completion"@, "multimodal-vision"@]
        } else {
            seq!["text-generation"@, "chat-completion"@]
        },
        SlotType::Embedding => if has_vision {
            seq!["sentence-similarity"@, "feature-extraction"@, "embedding"@, "vision-embedding"@]
        } else {
            seq!["sentence-similarity"@, "feature-extraction"@, "embedding"@]
        },
        SlotType::Ingest => seq!["document-ocr"@, "table-extraction"@, "spatial-vision"@],
        SlotType::Tts => seq!["text-to-speech"@, "voice-synthesis"@],
        SlotType::Stt => seq!["speech_to_text"@, "automatic-speech-recognition"@],
    }
}

proof fn lemma_plain_ascii(n: Seq<char>)
    requires
        forall|i: int| 0 <= i < n.len() ==> 'a' <= #[trigger] n[i] <= 'z',
    ensures
        crate::text::is_ascii_text(n),
        crate::text::ascii_lower(n) == n,
{
    assert(crate::text::ascii_lower(n) =~= n);
}

proof fn lemma_contains_self(s: Seq<char>)
    ensures
        contains(s, s),
{
    assert(s.subrange(0, s.len() as int) =~= s);
    assert(crate::text::occurs_at(s, s, 0));
}

proof fn lemma_chat_name()
    ensures
        slot_of_lowered("chat"@) == SlotType::Chat,
{
    reveal_strlit("chat");
    reveal_strlit("embed");
    reveal_strlit("ingest");
    reveal_strlit("ocr");
    reveal_strlit("vision");
    reveal_strlit("tts");
    reveal_strlit("audio");
    reveal_strlit("voice");
    reveal_strlit("stt");
    reveal_strlit("asr");
    reveal_strlit("whisper");
    let n = "chat"@;
    lemma_first_char_absent(n, "embed"@);
    lemma_first_char_absent(n, "ingest"@);
    lemma_first_char_absent(n, "ocr"@);
    lemma_first_char_absent(n, "vision"@);
    lemma_first_char_absent(n, "tts"@);
    lemma_first_char_absent(n, "audio"@);
    lemma_first_char_absent(n, "voice"@);
    lemma_first_char_absent(n, "stt"@);
    lemma_first_char_absent(n, "asr"@);
    lemma_first_char_absent(n, "whisper"@);
}

proof fn lemma_ingest_name()
    ensures
        slot_of_lowered("ingest"@) == SlotType::Ingest,
{
    reveal_strlit("ingest");
    reveal_strlit("embed");
    lemma_first_char_absent("ingest"@, "embed"@);
    lemma_contains_self("ingest"@);
}

proof fn lemma_embedding_name()
    ensures
        slot_of_lowered("embedding"@) == SlotType::Embedding,
{
    reveal_strlit("embedding");
    reveal_strlit("embed");
    assert("embedding"@.subrange(0, 5) =~= "embed"@);
    assert(crate::text::occurs_at("embedding"@, "embed"@, 0));
}

proof fn lemma_tts_name()
    ensures
        slot_of_lowered("tts"@) == SlotType::Tts,
{
    reveal_strlit("tts");
    reveal_strlit("embed");
    reveal_strlit("ingest");
    reveal_strlit("ocr");
    reveal_strlit("vision");
    let n = "tts"@;
    lemma_first_char_absent(n, "embed"@);
    lemma_first_char_absent(n, "ingest"@);
    lemma_first_char_absent(n, "ocr"@);
    lemma_first_char_absent(n, "vision"@);
    lemma_contains_self(n);
}

proof fn lemma_stt_name()
    ensures
        slot_of_lowered("stt"@) == SlotType::Stt,
{
    reveal_strlit("stt");
    reveal_strlit("embed");
    reveal_strlit("ingest");
    reveal_strlit("ocr");
    reveal_strlit("vision");
    reveal_strlit("tts");
    reveal_strlit("audio");
    reveal_strlit("voice");
    let n = "stt"@;
    lemma_first_char_absent(n, "embed"@);
    lemma_first_char_absent(n, "ingest"@);
    lemma_first_char_absent(n, "ocr"@);
    lemma_first_char_absent(n, "vision"@);
    lemma_first_char_absent(n, "tts"@);
    lemma_first_char_absent(n, "audio"@);
    lemma_first_char_absent(n, "voice"@);
    lemma_contains_self(n);
}

/// Naming a slot and reading the name back gives the slot again: every slot name
/// is ASCII, and `SlotType::from_category(s.as_str())` is `s`.
pub proof fn lemma_slot_name_round_trip(s: SlotType)
    ensures
        crate::text::is_ascii_text(slot_name(s)),
        slot_of_lowered(crate::text::ascii_lower(slot_name(s))) == s,
{
    match s {
        SlotType::Chat => {
            reveal_strlit("chat");
            lemma_plain_ascii("chat"@);
            lemma_chat_name();
        },
        SlotType::Ingest => {
            reveal_strlit("ingest");
            lemma_plain_ascii("ingest"@);
            lemma_ingest_name();
        },
        SlotType::Embedding => {
            reveal_strlit("embedding");
            lemma_plain_ascii("embedding"@);
            lemma_embedding_name();
        },
        SlotType::Tts => {
            reveal_strlit("tts");
            lemma_plain_ascii("tts"@);
            lemma_tts_name();
        },
        SlotType::Stt => {
            reveal_strlit("stt");
            lemma_plain_ascii("stt"@);
            lemma_stt_name();
        },
    }
}

impl SlotType {
    pub fn as_str(&self) -> (r: &'static str)
        ensures
            r@ == slot_name(*self),
    {
        match self {
            SlotType::Chat => "chat",
            SlotType::Ingest => "ingest",
            SlotType::Embedding => "embedding",
            SlotType::Tts => "tts",
            SlotType::Stt => "stt",
        }
    }

    /// Slot of a category name (keyword match on the lower-cased name).
    pub fn from_category(cat: &str) -> (r: SlotType)
        ensures
            r == slot_of_category(cat@),
            crate::text::is_ascii_text(cat@) ==> r == slot_of_lowered(crate::text::ascii_lower(cat@)),
    {
        let c = lower_chars(cat);
        if has_sub(&c, "embed") {
            SlotType::Embedding
        } else if has_sub(&c, "ingest") || has_sub(&c, "ocr") || has_sub(&c, "vision") {
            SlotType::Ingest
        } else if has_sub(&c, "tts") || has_sub(&c, "audio") || has_sub(&c, "voice") {
            SlotType::Tts
        } else if has_sub(&c, "stt") || has_sub(&c, "asr") || has_sub(&c, "whisper") {
            SlotType::Stt
        } else {
            SlotType::Chat
        }
    }

    /// Tasks the slot serves for a model with these capabilities.
    pub fn supported_tasks(&self, caps: &ModelCapabilities) -> (r: Vec<String>)
        ensures
            string_views(r@) == slot_tasks(*self, caps.has_vision),
    {
        let mut tasks: Vec<String> = Vec::new();
        match self {
            SlotType::Chat => {
                tasks.push("text-generation".to_string());
                tasks.push("chat-completion".to_string());
                if caps.has_vision {
                    tasks.push("multimodal-vision".to_string());
                }
            },
            SlotType::Embedding => {
                tasks.push("sentence-similarity".to_string());
                tasks.push("feature-extraction".to_string());
                tasks.push("embedding".to_string());
                if caps.has_vision {
                    tasks.push("vision-embedding".to_string());
                }
            },
            SlotType::Ingest => {
                tasks.push("document-ocr".to_string());
                tasks.push("table-extraction".to_string());
                tasks.push("spatial-vision".to_string());
            },
            SlotType::Tts => {
                tasks.push("text-to-speech".to_string());
                tasks.push("voice-synthesis".to_string());
            },
            SlotType::Stt => {
                tasks.push("speech_to_text".to_string());
                tasks.push("automatic-speech-recognition".to_string());
            },
        }
        assert(string_views(tasks@) =~= slot_tasks(*self, caps.has_vision));
        tasks
    }
}

/// Author of a chat message.
#[derive(Debug, Clone, Copy, PartialEq, Eq, Structural)]
pub enum MessageRole {
    User,
    Assistant,
    System,
}

pub open spec fn role_name(r: MessageRole) -> Seq<char> {
    match r {
        MessageRole::User => "user"@,
        MessageRole::Assistant => "assistant"@,
        MessageRole::System => "system"@,
    }
}

impl MessageRole {
    /// Display text of the role (`user`, `assistant`, `system`).
    pub fn to_string(&self) -> (r: String)
        ensures
            r@ == role_name(*self),
    {
        match self {
            MessageRole::User => "user".to_string(),
            MessageRole::Assistant => "assistant".to_string(),
            MessageRole::System => "system".to_string(),
        }
    }
}

/// A chat request: the session and the user message.
pub struct ChatRequest {
    pub session_id: String,
    pub message: String,
}

} // verus!
