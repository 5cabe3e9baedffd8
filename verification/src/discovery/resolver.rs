//! The capability resolver: the discovery rules applied to what a weight probe
//! found, the companion-file facts merged in, and the slot a model serves.
use vstd::prelude::*;
use crate::discovery::capabilities::{uniform_caps, CapsView, ModelCapabilities, RegistryModelMetadata};
use crate::discovery::fallback::{config_caps, enrich_from_fallback_jsons, FallbackFacts};
use crate::discovery::probe::{opt_str, BinaryProbeResult};
use crate::discovery::rules::{
    audio_rules, chat_rules, embedding_rules, evaluate_audio_rules, evaluate_chat_rules, evaluate_embedding_rules,
    evaluate_vision_rules, vision_rules,
};
use crate::text::{concat_chars, concat_str, lower_chars, lowercase, string_of};

verus! {

/// The slot the capability resolver assigns: the audio and vision families are
/// kept apart from chat here.
#[derive(Debug, Clone, Copy, PartialEq, Eq, Structural)]
pub enum DiscoverySlot {
    Chat,
    Embedding,
    Audio,
    Vision,
}

/// The identity the rules match against: the lower-cased architecture and the
/// lower-cased folder name, joined by a space.
pub open spec fn combined_ident(arch: Seq<char>, dir_name: Seq<char>) -> Seq<char> {
    lowercase(arch) + " "@ + lowercase(dir_name)
}

/// The capabilities of a probed model: chat, embedding, vision and audio rules in
/// turn from nothing, then the `config.json` facts of its folder.
pub open spec fn resolved_caps(probe: BinaryProbeResult, dir_name: Seq<char>, facts: FallbackFacts) -> CapsView {
    let id = combined_ident(probe.architecture@, dir_name);
    let c1 = chat_rules(uniform_caps(false), id, probe.chat_template is Some);
    let c2 = embedding_rules(c1, id, probe.has_pooling);
    let c3 = vision_rules(c2, probe.has_vision_keys, probe.has_vision_tensors);
    let c4 = audio_rules(c3, id, probe.has_audio_keys, probe.has_audio_tensors);
    config_caps(c4, facts.config, facts.has_processor_config)
}

/// The slot: embedding, audio or (non-instruct) image / video generation and
/// image-to-text by capability first, else by the category folder the model sits in.
pub open spec fn discovery_slot(c: CapsView, category_folder: Seq<char>) -> DiscoverySlot {
    if c.is_embedding {
        DiscoverySlot::Embedding
    } else if c.is_asr || c.is_tts || c.is_audio_to_audio {
        DiscoverySlot::Audio
    } else if (c.is_image_gen || c.is_video_gen || c.is_image_to_text) && !c.is_instruct {
        DiscoverySlot::Vision
    } else if category_folder == "audio"@ {
        DiscoverySlot::Audio
    } else if category_folder == "vision"@ {
        if c.is_instruct { DiscoverySlot::Chat } else { DiscoverySlot::Vision }
    } else if category_folder == "embedding"@ {
        DiscoverySlot::Embedding
    } else {
        DiscoverySlot::Chat
    }
}

fn copy_opt(o: &Option<String>) -> (r: Option<String>)
    ensures
        opt_str(r) == opt_str(*o),
{
    match o {
        Some(s) => Some(s.clone()),
        None => None,
    }
}

fn slot_for(caps: &ModelCapabilities, category_folder: &str) -> (r: DiscoverySlot)
    ensures
        r == discovery_slot(caps@, category_folder@),
{
    if caps.is_embedding {
        DiscoverySlot::Embedding
    } else if caps.is_asr || caps.is_tts || caps.is_audio_to_audio {
        DiscoverySlot::Audio
    } else if (caps.is_image_gen || caps.is_video_gen || caps.is_image_to_text) && !caps.is_instruct {
        DiscoverySlot::Vision
    } else {
        let c = crate::text::chars_of(category_folder);
        if crate::text::eq_str(&c, "audio") {
            DiscoverySlot::Audio
        } else if crate::text::eq_str(&c, "vision") {
            if caps.is_instruct { DiscoverySlot::Chat } else { DiscoverySlot::Vision }
        } else if crate::text::eq_str(&c, "embedding") {
            DiscoverySlot::Embedding
        } else {
            DiscoverySlot::Chat
        }
    }
}

/// Resolves a model from the probe of its primary weight, the name of its folder,
/// the category folder it sits in and the facts of its companion files: the slot,
/// the capabilities and the metadata the probe gave.
pub fn resolve_capabilities(
    probe: &BinaryProbeResult,
    dir_name: &str,
    category_folder: &str,
    facts: FallbackFacts,
) -> (r: (DiscoverySlot, ModelCapabilities, RegistryModelMetadata))
    ensures
        r.1@ == resolved_caps(*probe, dir_name@, facts),
        r.0 == discovery_slot(r.1@, category_folder@),
        r.2.architecture@ == probe.architecture@,
        r.2.parameters@ == probe.parameters_str@,
        r.2.context_window@ == probe.context_window@,
        opt_str(r.2.quantization) == opt_str(probe.quantization),
        opt_str(r.2.bit_depth) == opt_str(probe.bit_depth),
        opt_str(r.2.chat_template) == opt_str(probe.chat_template),
        r.2.tts_family is None && r.2.stt_family is None && r.2.backend_type is None,
        r.2.think_start_tag is None && r.2.think_end_tag is None,
{
    let a = lower_chars(probe.architecture.as_str());
    let d = lower_chars(dir_name);
    let joined = concat_chars(&concat_str(&a, " "), &d);
    let ident = string_of(&joined);
    proof {
        assert(ident@ == combined_ident(probe.architecture@, dir_name@));
    }
    let mut caps = ModelCapabilities::default();
    evaluate_chat_rules(ident.as_str(), probe.chat_template.is_some(), &mut caps);
    evaluate_embedding_rules(ident.as_str(), probe.has_pooling, &mut caps);
    evaluate_vision_rules(ident.as_str(), probe.has_vision_keys, probe.has_vision_tensors, &mut caps);
    evaluate_audio_rules(ident.as_str(), probe.has_audio_keys, probe.has_audio_tensors, &mut caps);
    let _extra = enrich_from_fallback_jsons(facts, &mut caps);
    let slot = slot_for(&caps, category_folder);
    let metadata = RegistryModelMetadata {
        architecture: probe.architecture.clone(),
        parameters: probe.parameters_str.clone(),
        context_window: probe.context_window.clone(),
        quantization: copy_opt(&probe.quantization),
        bit_depth: copy_opt(&probe.bit_depth),
        tts_family: None,
        stt_family: None,
        backend_type: None,
        think_start_tag: None,
        think_end_tag: None,
        chat_template: copy_opt(&probe.chat_template),
    };
    (slot, caps, metadata)
}

} // verus!
