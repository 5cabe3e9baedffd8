//! Deterministic classification of a model into its slot, category and task list.
use vstd::prelude::*;
use crate::text::{
    chars_of, concat_chars, concat_str, eq_any, eq_str, equals_any, join, join_strings,
    lower_of_chars, lowercase, opt_str_view, or_else, string_of, string_views, trim, trim_chars,
};
use crate::taxonomy::heuristics::{
    is_asr_ident, is_embedding_ident, is_ingest_ident, is_tts_ident, is_vlm_chat_ident,
    matches_any, matches_any_spec, AUDIO_ASR_KEYWORDS, AUDIO_CONVERSION_KEYWORDS,
    AUDIO_TTS_KEYWORDS, EMBEDDING_ARCHITECTURES, EMBEDDING_KEYWORDS, INGEST_KEYWORDS,
    MULTIMODAL_CHAT_KEYWORDS,
};
use crate::taxonomy::tags::{HF_TAGS_CHAT, HF_TAGS_EMBEDDING, HF_TAGS_INGEST, HF_TAGS_STT, HF_TAGS_TTS};
use crate::taxonomy::rules::{caps_none, opt_string_view, CapabilitiesView, ModelCapabilities};
use crate::fetch::tts_resolver::{tts_family_spec, TtsAssetResolver};
use crate::entities::{slot_name, SlotType};

verus! {

/// Extra tags that mark an embedding model.
pub const EMBEDDING_EXTRA_TAGS: [&'static str; 4] = [
    "sentence-similarity", "feature-extraction", "embeddings", "embedding",
];

/// Family tag the family detector gives when no TTS family is recognised.
pub const GENERIC_TTS_FAMILY: &'static str = "generic-onnx-tts";

pub struct ClassificationResult {
    pub slot: SlotType,
    pub category: String,
    pub supported_tasks: Vec<String>,
    pub capabilities: ModelCapabilities,
    pub tts_family: Option<String>,
}

pub struct ClassificationView {
    pub slot: SlotType,
    pub category: Seq<char>,
    pub supported_tasks: Seq<Seq<char>>,
    pub capabilities: CapabilitiesView,
    pub tts_family: Option<Seq<char>>,
}

impl View for ClassificationResult {
    type V = ClassificationView;

    open spec fn view(&self) -> ClassificationView {
        ClassificationView {
            slot: self.slot,
            category: self.category@,
            supported_tasks: string_views(self.supported_tasks@),
            capabilities: self.capabilities@,
            tts_family: opt_string_view(self.tts_family),
        }
    }
}

/// Trimmed, lower-cased pipeline tag (empty when absent).
pub open spec fn clean_tag(tag: Option<Seq<char>>) -> Seq<char> {
    lowercase(trim(or_else(tag, ""@)))
}

/// Lower-cased file names joined by spaces.
pub open spec fn joined_files(files: Seq<Seq<char>>) -> Seq<char> {
    lowercase(join(files, " "@))
}

/// Identifier, architecture hint, pipeline tag and file names, lower-cased, space-separated.
pub open spec fn combined_text(
    ident: Seq<char>,
    tag: Option<Seq<char>>,
    files: Seq<Seq<char>>,
    arch: Option<Seq<char>>,
) -> Seq<char> {
    lowercase(ident) + " "@ + lowercase(or_else(arch, ""@)) + " "@ + clean_tag(tag) + " "@
        + joined_files(files)
}

pub open spec fn has_embedding_extra_tag(extra: Seq<Seq<char>>) -> bool {
    exists|k: int| 0 <= k < extra.len() && equals_any(lowercase(#[trigger] extra[k]), EMBEDDING_EXTRA_TAGS@)
}

/// TTS family of an identifier and file listing; none when only the generic tag applies.
pub open spec fn classified_tts_family(ident: Seq<char>, files: Seq<Seq<char>>) -> Option<Seq<char>> {
    let fam = tts_family_spec(lowercase(ident), joined_files(files));
    if fam == GENERIC_TTS_FAMILY@ {
        None
    } else {
        Some(fam)
    }
}

/// Branch an explicit pipeline tag decides (0 speech synthesis, 1 speech
/// recognition, 2 embedding, 3 ingest, 4 chat), if it is one of the known tags.
pub open spec fn tag_kind(t: Seq<char>) -> Option<int> {
    if equals_any(t, HF_TAGS_TTS@) {
        Some(0)
    } else if equals_any(t, HF_TAGS_STT@) {
        Some(1)
    } else if equals_any(t, HF_TAGS_EMBEDDING@) {
        Some(2)
    } else if equals_any(t, HF_TAGS_INGEST@) {
        Some(3)
    } else if equals_any(t, HF_TAGS_CHAT@) {
        Some(4)
    } else {
        None
    }
}

/// Branch the keywords decide when the pipeline tag does not: speech synthesis,
/// then speech recognition / audio conversion, then embedding (extra tags or
/// keywords), then ingest, then chat.
pub open spec fn keyword_kind(c: Seq<char>, extra: Seq<Seq<char>>) -> int {
    if matches_any_spec(c, AUDIO_TTS_KEYWORDS@) {
        0
    } else if matches_any_spec(c, AUDIO_ASR_KEYWORDS@) || matches_any_spec(c, AUDIO_CONVERSION_KEYWORDS@) {
        1
    } else if has_embedding_extra_tag(extra) || matches_any_spec(c, EMBEDDING_KEYWORDS@) || matches_any_spec(
        c,
        EMBEDDING_ARCHITECTURES@,
    ) {
        2
    } else if matches_any_spec(c, INGEST_KEYWORDS@) {
        3
    } else {
        4
    }
}

/// The branch of a classification: an explicit pipeline tag first, the keywords otherwise.
pub open spec fn class_kind(
    ident: Seq<char>,
    tag: Option<Seq<char>>,
    extra: Seq<Seq<char>>,
    files: Seq<Seq<char>>,
    arch: Option<Seq<char>>,
) -> int {
    match tag_kind(clean_tag(tag)) {
        Some(k) => k,
        None => keyword_kind(combined_text(ident, tag, files, arch), extra),
    }
}

/// The classification: an explicit Hugging Face pipeline tag decides first; then
/// speech synthesis, speech recognition / audio conversion, embedding, ingest and
/// chat keywords in that order (chat is multimodal when a VLM keyword or an image
/// pipeline tag is present).
pub open spec fn classify_spec(
    ident: Seq<char>,
    tag: Option<Seq<char>>,
    extra: Seq<Seq<char>>,
    files: Seq<Seq<char>>,
    arch: Option<Seq<char>>,
) -> ClassificationView {
    let t = clean_tag(tag);
    let c = combined_text(ident, tag, files, arch);
    let k = class_kind(ident, tag, extra, files, arch);
    if k == 0 {
        let fam = classified_tts_family(ident, files);
        ClassificationView {
            slot: SlotType::Tts,
            category: "tts"@,
            supported_tasks: seq!["text-to-speech"@, "voice-synthesis"@],
            capabilities: CapabilitiesView { is_tts: true, tts_family: fam, ..caps_none() },
            tts_family: fam,
        }
    } else if k == 1 {
        ClassificationView {
            slot: SlotType::Stt,
            category: "stt"@,
            supported_tasks: seq!["automatic-speech-recognition"@, "audio-classification"@],
            capabilities: CapabilitiesView { is_asr: true, ..caps_none() },
            tts_family: None,
        }
    } else if k == 2 {
        ClassificationView {
            slot: SlotType::Embedding,
            category: "embedding"@,
            supported_tasks: seq![
                "sentence-similarity"@,
                "feature-extraction"@,
                "visual-document-retrieval"@,
            ],
            capabilities: CapabilitiesView {
                is_embedding: true,
                is_feature_extraction: true,
                ..caps_none()
            },
            tts_family: None,
        }
    } else if k == 3 {
        ClassificationView {
            slot: SlotType::Ingest,
            category: "ingest"@,
            supported_tasks: seq!["document-ocr"@, "table-extraction"@, "object-detection"@],
            capabilities: CapabilitiesView { has_vision: true, ..caps_none() },
            tts_family: None,
        }
    } else {
        let vlm = matches_any_spec(c, MULTIMODAL_CHAT_KEYWORDS@) || t == "image-text-to-text"@
            || t == "image-to-text"@;
        ClassificationView {
            slot: SlotType::Chat,
            category: "chat"@,
            supported_tasks: if vlm {
                seq![
                    "chat-completion"@,
                    "text-generation"@,
                    "image-text-to-text"@,
                    "image-to-text"@,
                    "visual-question-answering"@,
                ]
            } else {
                seq!["chat-completion"@, "text-generation"@]
            },
            capabilities: CapabilitiesView {
                chat_completion: true,
                has_vision: vlm,
                is_vision_chat: vlm,
                ..caps_none()
            },
            tts_family: None,
        }
    }
}

pub struct UniversalModelClassifier;

impl UniversalModelClassifier {
    fn has_embedding_tag(additional_tags: &[String]) -> (r: bool)
        ensures
            r == has_embedding_extra_tag(string_views(additional_tags@)),
    {
        let ghost g = string_views(additional_tags@);
        let mut k: usize = 0;
        while k < additional_tags.len()
            invariant
                g == string_views(additional_tags@),
                k <= additional_tags@.len(),
                forall|j: int| 0 <= j < k ==> !equals_any(lowercase(#[trigger] g[j]), EMBEDDING_EXTRA_TAGS@),
            decreases additional_tags.len() - k,
        {
            let tl = crate::text::lower_chars(additional_tags[k].as_str());
            assert(g[k as int] == additional_tags@[k as int]@);
            if eq_any(&tl, &EMBEDDING_EXTRA_TAGS) {
                return true;
            }
            k = k + 1;
        }
        false
    }

    /// Classifies a model into its slot, category and task list.
    pub fn classify(
        identifier: &str,
        pipeline_tag: Option<&str>,
        additional_tags: &[String],
        filenames: &[String],
        arch_hint: Option<&str>,
    ) -> (r: ClassificationResult)
        ensures
            r@ == classify_spec(
                identifier@,
                opt_str_view(pipeline_tag),
                string_views(additional_tags@),
                string_views(filenames@),
                opt_str_view(arch_hint),
            ),
    {
        let tag_raw = match pipeline_tag {
            Some(t) => chars_of(t),
            None => chars_of(""),
        };
        let tag_trim = trim_chars(&tag_raw);
        let tag_clean = lower_of_chars(&tag_trim);
        let ident_lower = crate::text::lower_chars(identifier);
        let arch_raw = match arch_hint {
            Some(a) => chars_of(a),
            None => chars_of(""),
        };
        let arch_lower = lower_of_chars(&arch_raw);
        let joined = join_strings(filenames, " ");
        let files_joined = lower_of_chars(&joined);
        let c1 = concat_str(&ident_lower, " ");
        let c2 = concat_chars(&c1, &arch_lower);
        let c3 = concat_str(&c2, " ");
        let c4 = concat_chars(&c3, &tag_clean);
        let c5 = concat_str(&c4, " ");
        let combined_chars = concat_chars(&c5, &files_joined);
        let combined = string_of(&combined_chars);
        proof {
            assert(tag_clean@ == clean_tag(opt_str_view(pipeline_tag)));
            assert(combined@ =~= combined_text(
                identifier@,
                opt_str_view(pipeline_tag),
                string_views(filenames@),
                opt_str_view(arch_hint),
            ));
        }
        let kind: u8 = if eq_any(&tag_clean, &HF_TAGS_TTS) {
            0
        } else if eq_any(&tag_clean, &HF_TAGS_STT) {
            1
        } else if eq_any(&tag_clean, &HF_TAGS_EMBEDDING) {
            2
        } else if eq_any(&tag_clean, &HF_TAGS_INGEST) {
            3
        } else if eq_any(&tag_clean, &HF_TAGS_CHAT) {
            4
        } else if is_tts_ident(combined.as_str()) {
            0
        } else if is_asr_ident(combined.as_str()) || matches_any(combined.as_str(), &AUDIO_CONVERSION_KEYWORDS) {
            1
        } else if Self::has_embedding_tag(additional_tags) || is_embedding_ident(combined.as_str()) {
            2
        } else if is_ingest_ident(combined.as_str()) {
            3
        } else {
            4
        };
        assert(kind as int == class_kind(
            identifier@,
            opt_str_view(pipeline_tag),
            string_views(additional_tags@),
            string_views(filenames@),
            opt_str_view(arch_hint),
        ));
        if kind == 0 {
            let mut caps = ModelCapabilities::default();
            caps.is_tts = true;
            let mut tasks: Vec<String> = Vec::new();
            tasks.push("text-to-speech".to_string());
            tasks.push("voice-synthesis".to_string());
            let ident_s = string_of(&ident_lower);
            let files_s = string_of(&files_joined);
            let fam = TtsAssetResolver::detect_tts_family(ident_s.as_str(), files_s.as_str());
            let famc = chars_of(fam);
            let tts_fam: Option<String> = if eq_str(&famc, GENERIC_TTS_FAMILY) {
                None
            } else {
                Some(fam.to_owned())
            };
            let tts_fam2: Option<String> = if eq_str(&famc, GENERIC_TTS_FAMILY) {
                None
            } else {
                Some(fam.to_owned())
            };
            caps.tts_family = tts_fam;
            let r = ClassificationResult {
                slot: SlotType::Tts,
                category: "tts".to_string(),
                supported_tasks: tasks,
                capabilities: caps,
                tts_family: tts_fam2,
            };
            assert(r@.supported_tasks =~= seq!["text-to-speech"@, "voice-synthesis"@]);
            assert(r@.capabilities.explicit_tasks =~= Seq::<Seq<char>>::empty());
            return r;
        } else if kind == 1 {
            let mut caps = ModelCapabilities::default();
            caps.is_asr = true;
            let mut tasks: Vec<String> = Vec::new();
            tasks.push("automatic-speech-recognition".to_string());
            tasks.push("audio-classification".to_string());
            let r = ClassificationResult {
                slot: SlotType::Stt,
                category: "stt".to_string(),
                supported_tasks: tasks,
                capabilities: caps,
                tts_family: None,
            };
            assert(r@.supported_tasks =~= seq!["automatic-speech-recognition"@, "audio-classification"@]);
            assert(r@.capabilities.explicit_tasks =~= Seq::<Seq<char>>::empty());
            return r;
        }
        if kind == 2 {
            let mut caps = ModelCapabilities::default();
            caps.is_embedding = true;
            caps.is_feature_extraction = true;
            let mut tasks: Vec<String> = Vec::new();
            tasks.push("sentence-similarity".to_string());
            tasks.push("feature-extraction".to_string());
            tasks.push("visual-document-retrieval".to_string());
            let r = ClassificationResult {
                slot: SlotType::Embedding,
                category: "embedding".to_string(),
                supported_tasks: tasks,
                capabilities: caps,
                tts_family: None,
            };
            assert(r@.supported_tasks =~= seq![
                "sentence-similarity"@,
                "feature-extraction"@,
                "visual-document-retrieval"@,
            ]);
            assert(r@.capabilities.explicit_tasks =~= Seq::<Seq<char>>::empty());
            return r;
        }
        if kind == 3 {
            let mut caps = ModelCapabilities::default();
            caps.has_vision = true;
            let mut tasks: Vec<String> = Vec::new();
            tasks.push("document-ocr".to_string());
            tasks.push("table-extraction".to_string());
            tasks.push("object-detection".to_string());
            let r = ClassificationResult {
                slot: SlotType::Ingest,
                category: "ingest".to_string(),
                supported_tasks: tasks,
                capabilities: caps,
                tts_family: None,
            };
            assert(r@.supported_tasks =~= seq!["document-ocr"@, "table-extraction"@, "object-detection"@]);
            assert(r@.capabilities.explicit_tasks =~= Seq::<Seq<char>>::empty());
            return r;
        }
        let is_vlm = is_vlm_chat_ident(combined.as_str()) || eq_str(&tag_clean, "image-text-to-text")
            || eq_str(&tag_clean, "image-to-text");
        let mut caps = ModelCapabilities::default();
        caps.chat_completion = true;
        let mut tasks: Vec<String> = Vec::new();
        tasks.push("chat-completion".to_string());
        tasks.push("text-generation".to_string());
        if is_vlm {
            caps.has_vision = true;
            caps.is_vision_chat = true;
            tasks.push("image-text-to-text".to_string());
            tasks.push("image-to-text".to_string());
            tasks.push("visual-question-answering".to_string());
        }
        let r = ClassificationResult {
            slot: SlotType::Chat,
            category: "chat".to_string(),
            supported_tasks: tasks,
            capabilities: caps,
            tts_family: None,
        };
        proof {
            if is_vlm {
                assert(r@.supported_tasks =~= seq![
                    "chat-completion"@,
                    "text-generation"@,
                    "image-text-to-text"@,
                    "image-to-text"@,
                    "visual-question-answering"@,
                ]);
            } else {
                assert(r@.supported_tasks =~= seq!["chat-completion"@, "text-generation"@]);
            }
        }
        assert(r@.capabilities.explicit_tasks =~= Seq::<Seq<char>>::empty());
        r
    }
}

} // verus!
