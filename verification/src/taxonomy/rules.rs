//! Capability flags of a model and the chat-capability and task-list rules.
use vstd::prelude::*;
use crate::text::{contains, has_sub, string_views, strings_contain, strs_to_strings, views};
use crate::taxonomy::heuristics::{matches_any, matches_any_spec, CHAT_KEYWORDS};
use crate::taxonomy::tags::{HF_TAGS_CHAT, HF_TAGS_EMBEDDING, HF_TAGS_INGEST, HF_TAGS_STT, HF_TAGS_TTS};
use crate::entities::{slot_of_category, SlotType};

verus! {

/// What a model can do, as flags plus its detected families and explicit task votes.
pub struct ModelCapabilities {
    pub is_instruct: bool,
    pub is_base: bool,
    pub is_embedding: bool,
    pub is_feature_extraction: bool,
    pub is_reranker: bool,
    pub is_tts: bool,
    pub is_asr: bool,
    pub is_audio_to_audio: bool,
    pub has_vision: bool,
    pub is_vision_chat: bool,
    pub has_file: bool,
    pub chat_completion: bool,
    pub tts_family: Option<String>,
    pub stt_family: Option<String>,
    pub explicit_tasks: Vec<String>,
}

/// Mathematical view of `ModelCapabilities`.
pub struct CapabilitiesView {
    pub is_instruct: bool,
    pub is_base: bool,
    pub is_embedding: bool,
    pub is_feature_extraction: bool,
    pub is_reranker: bool,
    pub is_tts: bool,
    pub is_asr: bool,
    pub is_audio_to_audio: bool,
    pub has_vision: bool,
    pub is_vision_chat: bool,
    pub has_file: bool,
    pub chat_completion: bool,
    pub tts_family: Option<Seq<char>>,
    pub stt_family: Option<Seq<char>>,
    pub explicit_tasks: Seq<Seq<char>>,
}

pub open spec fn opt_string_view(o: Option<String>) -> Option<Seq<char>> {
    match o {
        Some(s) => Some(s@),
        None => None,
    }
}

impl View for ModelCapabilities {
    type V = CapabilitiesView;

    open spec fn view(&self) -> CapabilitiesView {
        CapabilitiesView {
            is_instruct: self.is_instruct,
            is_base: self.is_base,
            is_embedding: self.is_embedding,
            is_feature_extraction: self.is_feature_extraction,
            is_reranker: self.is_reranker,
            is_tts: self.is_tts,
            is_asr: self.is_asr,
            is_audio_to_audio: self.is_audio_to_audio,
            has_vision: self.has_vision,
            is_vision_chat: self.is_vision_chat,
            has_file: self.has_file,
            chat_completion: self.chat_completion,
            tts_family: opt_string_view(self.tts_family),
            stt_family: opt_string_view(self.stt_family),
            explicit_tasks: string_views(self.explicit_tasks@),
        }
    }
}

/// All flags false, no families, no explicit tasks.
pub open spec fn caps_none() -> CapabilitiesView {
    CapabilitiesView {
        is_instruct: false,
        is_base: false,
        is_embedding: false,
        is_feature_extraction: false,
        is_reranker: false,
        is_tts: false,
        is_asr: false,
        is_audio_to_audio: false,
        has_vision: false,
        is_vision_chat: false,
        has_file: false,
        chat_completion: false,
        tts_family: None,
        stt_family: None,
        explicit_tasks: Seq::empty(),
    }
}

/// All flags true, no families, no explicit tasks.
pub open spec fn caps_all() -> CapabilitiesView {
    CapabilitiesView {
        is_instruct: true,
        is_base: true,
        is_embedding: true,
        is_feature_extraction: true,
        is_reranker: true,
        is_tts: true,
        is_asr: true,
        is_audio_to_audio: true,
        has_vision: true,
        is_vision_chat: true,
        has_file: true,
        chat_completion: true,
        tts_family: None,
        stt_family: None,
        explicit_tasks: Seq::empty(),
    }
}

impl Default for ModelCapabilities {
    fn default() -> (r: Self)
        ensures
            r@ == caps_none(),
    {
        let r = ModelCapabilities {
            is_instruct: false,
            is_base: false,
            is_embedding: false,
            is_feature_extraction: false,
            is_reranker: false,
            is_tts: false,
            is_asr: false,
            is_audio_to_audio: false,
            has_vision: false,
            is_vision_chat: false,
            has_file: false,
            chat_completion: false,
            tts_family: None,
            stt_family: None,
            explicit_tasks: Vec::new(),
        };
        assert(r@.explicit_tasks =~= Seq::<Seq<char>>::empty());
        r
    }
}

impl ModelCapabilities {
    /// Every capability flag set.
    pub fn all_true() -> (r: Self)
        ensures
            r@ == caps_all(),
    {
        let r = ModelCapabilities {
            is_instruct: true,
            is_base: true,
            is_embedding: true,
            is_feature_extraction: true,
            is_reranker: true,
            is_tts: true,
            is_asr: true,
            is_audio_to_audio: true,
            has_vision: true,
            is_vision_chat: true,
            has_file: true,
            chat_completion: true,
            tts_family: None,
            stt_family: None,
            explicit_tasks: Vec::new(),
        };
        assert(r@.explicit_tasks =~= Seq::<Seq<char>>::empty());
        r
    }
}

/// Capabilities after the chat rules: explicit chat votes, then a text-generation vote,
/// then a chat template or chat keyword decide instruct vs. base; a file vote or a coder
/// architecture adds file support.
pub open spec fn chat_rules_spec(
    caps: CapabilitiesView,
    arch_lower: Seq<char>,
    has_chat_template: bool,
) -> CapabilitiesView {
    let t = caps.explicit_tasks;
    let instruct = if t.contains("chat-completion"@) || t.contains("conversational"@) {
        true
    } else if t.contains("text-generation"@) {
        false
    } else {
        has_chat_template || matches_any_spec(arch_lower, CHAT_KEYWORDS@)
    };
    let file = t.contains("multimodal-file"@) || contains(arch_lower, "coder"@);
    CapabilitiesView {
        is_instruct: caps.is_instruct || instruct,
        is_base: caps.is_base || !instruct,
        has_file: caps.has_file || file,
        ..caps
    }
}

/// Canonical HuggingFace task list of a slot.
pub open spec fn slot_hf_tags(s: SlotType) -> Seq<Seq<char>> {
    match s {
        SlotType::Chat => views(HF_TAGS_CHAT@),
        SlotType::Ingest => views(HF_TAGS_INGEST@),
        SlotType::Embedding => views(HF_TAGS_EMBEDDING@),
        SlotType::Tts => views(HF_TAGS_TTS@),
        SlotType::Stt => views(HF_TAGS_STT@),
    }
}

pub struct UniversalTaskRules;

impl UniversalTaskRules {
    /// Sets instruct / base and file support from explicit votes and architecture keywords.
    pub fn evaluate_chat_rules(
        arch_lower: &str,
        has_chat_template: bool,
        caps: &mut ModelCapabilities,
    )
        ensures
            final(caps)@ == chat_rules_spec(old(caps)@, arch_lower@, has_chat_template),
    {
        if strings_contain(&caps.explicit_tasks, "chat-completion") || strings_contain(
            &caps.explicit_tasks,
            "conversational",
        ) {
            caps.is_instruct = true;
        } else if strings_contain(&caps.explicit_tasks, "text-generation") {
            caps.is_base = true;
        } else if has_chat_template || matches_any(arch_lower, &CHAT_KEYWORDS) {
            caps.is_instruct = true;
        } else {
            caps.is_base = true;
        }
        let arch = crate::text::chars_of(arch_lower);
        if strings_contain(&caps.explicit_tasks, "multimodal-file") || has_sub(&arch, "coder") {
            caps.has_file = true;
        }
    }

    /// Every HuggingFace task tag of the slot.
    pub fn get_tasks_for_slot(slot_type: &SlotType, _caps: &ModelCapabilities) -> (r: Vec<String>)
        ensures
            string_views(r@) == slot_hf_tags(*slot_type),
    {
        match slot_type {
            SlotType::Chat => strs_to_strings(&HF_TAGS_CHAT),
            SlotType::Ingest => strs_to_strings(&HF_TAGS_INGEST),
            SlotType::Embedding => strs_to_strings(&HF_TAGS_EMBEDDING),
            SlotType::Tts => strs_to_strings(&HF_TAGS_TTS),
            SlotType::Stt => strs_to_strings(&HF_TAGS_STT),
        }
    }

    /// Every HuggingFace task tag of the slot the category name maps to.
    pub fn get_tasks_for_category(category: &str) -> (r: Vec<String>)
        ensures
            string_views(r@) == slot_hf_tags(slot_of_category(category@)),
    {
        let slot = SlotType::from_category(category);
        let caps = ModelCapabilities::all_true();
        Self::get_tasks_for_slot(&slot, &caps)
    }
}

} // verus!
