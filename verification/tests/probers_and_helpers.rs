use cluaiz::discovery::capabilities::ModelCapabilities;
use cluaiz::entities::SlotType;
use cluaiz::fetch::tts_resolver::{TtsAssetResolver, TtsContractViolation};
use cluaiz::taxonomy::rules::{ModelCapabilities as TaxCaps, UniversalTaskRules};
use cluaiz::discovery::fallback::{apply_config_facts, fallback_facts_from_texts, read_special_tokens, ConfigFacts, ExtraMetadataFallback};
use cluaiz::discovery::probe::BinaryProbeResult;
use cluaiz::discovery::resolver::{resolve_capabilities, DiscoverySlot};
use cluaiz::fetch::manifest_plan::{display_architecture, format_ext, pipeline_flags, plain_name};
use cluaiz::listing::{any_pick_of, first_pick_of, group_of_name, lowered_entry_names, DirEntry, DirListing, FileGroup};
use cluaiz::prober::{FallbackJsonMetadata, FallbackProber, GgufProbeResult, GgufProber, ModelProber, OnnxProber};
use cluaiz::serving::audio_flow::{eq_ignore_ascii_chars, is_tts_task_name};
use cluaiz::serving::chat_flow::{rfind_chars, strip_prefixes_chars};
use cluaiz::taxonomy::heuristics::{is_asr_ident, is_embedding_ident, is_ingest_ident, is_tts_ident, is_vlm_chat_ident, matches_any};

fn chars(s: &str) -> Vec<char> {
    s.chars().collect()
}

#[test]
fn config_facts_update_capabilities() {
    let mut caps = ModelCapabilities::default();
    caps.is_instruct = true;
    let facts = ConfigFacts {
        has_vision_keys: true,
        has_audio_keys: false,
        architectures: vec!["WhisperForConditionalGeneration".to_string(), "BertModel".to_string()],
    };
    apply_config_facts(&mut caps, Some(facts), false);
    assert!(caps.has_vision && caps.is_vision_chat);
    assert!(caps.has_audio && caps.is_asr && !caps.is_tts);
    assert!(caps.is_embedding && caps.is_feature_extraction);

    let mut plain = ModelCapabilities::default();
    apply_config_facts(&mut plain, None, true);
    assert!(plain.has_vision && !plain.is_vision_chat && !plain.has_audio);
    let mut none = ModelCapabilities::default();
    apply_config_facts(&mut none, None, false);
    assert!(!none.has_vision);
}

#[test]
fn special_tokens_give_reasoning_tags() {
    let mut extra = ExtraMetadataFallback { chat_template: Some("t".to_string()), think_start_tag: None, think_end_tag: None };
    let pairs = vec![
        ("think_start_token".to_string(), Some("<think>".to_string())),
        ("bos_token".to_string(), Some("<s>".to_string())),
        ("reasoning_end".to_string(), Some("</think>".to_string())),
        ("think_start".to_string(), None),
    ];
    read_special_tokens(&mut extra, &pairs);
    assert_eq!(extra.think_start_tag.as_deref(), Some("<think>"));
    assert_eq!(extra.think_end_tag.as_deref(), Some("</think>"));
    assert_eq!(extra.chat_template.as_deref(), Some("t"));
}

#[test]
fn manifest_name_helpers() {
    assert_eq!(format_ext("model.Q4_K_M.gguf"), "gguf");
    assert_eq!(format_ext("README"), "README");
    assert_eq!(plain_name("Qwen2-0.5B.Q4.GGUF").into_iter().collect::<String>(), "qwen2-0.5b.q4");
    assert_eq!(plain_name("model.safetensors").into_iter().collect::<String>(), "model");
    assert_eq!(pipeline_flags(Some("sentence-similarity")), (true, false, false, false));
    assert_eq!(pipeline_flags(Some("image-text-to-text")), (false, true, false, false));
    assert_eq!(pipeline_flags(Some("text-to-image")), (false, false, true, false));
    assert_eq!(pipeline_flags(Some("automatic-speech-recognition")), (false, false, false, true));
    assert_eq!(pipeline_flags(Some("text-generation")), (false, false, false, false));
    assert_eq!(pipeline_flags(None), (false, false, false, false));
    assert_eq!(display_architecture("qwen2ForCausalLM", false), "Qwen2");
    assert_eq!(display_architecture("WhisperForConditionalGeneration", true), "Whisper");
    assert_eq!(display_architecture("Model", true), "Model Graph");
    assert_eq!(display_architecture("", true), "ONNX Graph");
    assert_eq!(display_architecture("", false), "GGUF Graph");
}

#[test]
fn directory_listing_groups() {
    assert_eq!(group_of_name(&chars("model.onnx"), false), FileGroup::Onnx);
    assert_eq!(group_of_name(&chars("ggml-base.bin"), true), FileGroup::Weights);
    assert_eq!(group_of_name(&chars("ggml-base.bin"), false), FileGroup::Other);
    assert_eq!(group_of_name(&chars("tokens.txt"), true), FileGroup::Config);
    assert_eq!(group_of_name(&chars("tokens.txt"), false), FileGroup::Other);
    assert_eq!(group_of_name(&chars("model.onnx.data"), false), FileGroup::Data);
    let l = DirListing {
        entries: vec![
            DirEntry { name: "Config.JSON".to_string(), size: 1 },
            DirEntry { name: "Encoder.onnx".to_string(), size: 2 },
            DirEntry { name: "decoder.onnx".to_string(), size: 3 },
        ],
        voices: Vec::new(),
        has_tokens_txt: false,
        has_lexicon_txt: false,
        has_model_onnx_data: false,
        has_am_mvn: false,
    };
    let names = lowered_entry_names(&l);
    assert_eq!(names[0], chars("config.json"));
    assert_eq!(first_pick_of(&names, false, FileGroup::Onnx, &["decoder"]), Some(2));
    assert_eq!(first_pick_of(&names, false, FileGroup::Onnx, &[]), Some(1));
    assert!(any_pick_of(&names, false, FileGroup::Config, &[]));
    assert!(!any_pick_of(&names, false, FileGroup::Config, &["tokenizer"]));
}

#[test]
fn keyword_heuristics() {
    assert!(matches_any("Qwen2-VL-7B", &["qwen2-vl"]));
    assert!(!matches_any("llama", &["qwen"]));
    assert!(is_embedding_ident("BAAI/bge-small"));
    assert!(is_embedding_ident("xlm-roberta-base"));
    assert!(is_ingest_ident("microsoft/Florence-2"));
    assert!(is_vlm_chat_ident("llava-1.6"));
    assert!(is_tts_ident("hexgrad/Kokoro-82M"));
    assert!(is_asr_ident("openai/whisper-small"));
    assert!(!is_asr_ident("llama-3"));
}

#[test]
fn small_serving_helpers() {
    assert!(eq_ignore_ascii_chars(&chars("Kokoro"), &chars("KOKORO")));
    assert!(!eq_ignore_ascii_chars(&chars("kokoro"), &chars("kokor")));
    assert!(is_tts_task_name("text_to_speech"));
    assert!(is_tts_task_name("music_generation"));
    assert!(!is_tts_task_name("speech_to_text"));
    assert_eq!(rfind_chars(&chars("a<b>c<b>"), &chars("<b>")), Some(5));
    assert_eq!(rfind_chars(&chars("abc"), &chars("x")), None);
    assert_eq!(strip_prefixes_chars(&chars("////path"), &chars("/")), chars("path"));
    assert_eq!(strip_prefixes_chars(&chars("path"), &chars("")), chars("path"));
}

#[test]
fn engine_probe_summaries() {
    let mut p = BinaryProbeResult::unknown();
    p.architecture = "llama".to_string();
    p.has_pooling = false;
    p.explicit_tasks = vec!["feature-extraction".to_string()];
    p.has_vision_tensors = true;
    let g = GgufProber::probe_file(p).unwrap();
    assert_eq!(g.architecture.as_deref(), Some("llama"));
    assert_eq!(g.context_window, None);
    assert_eq!(g.parameter_count, None);
    assert!(g.is_embedding && g.has_vision);

    let k = OnnxProber::probe_file("models/tts/Kokoro-82M.onnx");
    assert!(k.is_tts && !k.is_asr);
    assert_eq!(k.tts_family.as_deref(), Some("kokoro"));
    let w = OnnxProber::probe_file("sensevoice_small.onnx");
    assert!(w.is_asr && w.tts_family.is_none());
    let c = OnnxProber::probe_file("siglip-base.onnx");
    assert!(c.is_vision && !c.is_embedding);
    let o = OnnxProber::probe_file("model.onnx");
    assert!(!o.is_tts && !o.is_asr && !o.is_embedding && !o.is_vision);
}

#[test]
fn fallback_json_values_and_merge() {
    let fb = FallbackProber::from_values(
        Some("{% if x %}<think>{% endif %}".to_string()),
        Some(32768),
        Some("Qwen2ForCausalLM".to_string()),
    );
    assert_eq!(fb.context_window.as_deref(), Some("32768"));
    assert_eq!(fb.think_start_tag.as_deref(), Some("<think>"));
    assert_eq!(fb.think_end_tag.as_deref(), Some("</think>"));
    assert_eq!(fb.architecture.as_deref(), Some("Qwen2ForCausalLM"));
    let none = FallbackProber::from_values(None, None, None);
    assert!(none.think_start_tag.is_none() && none.context_window.is_none());
    let texts = FallbackProber::from_companion_texts(
        Some(r#"{"chat_template": "<think>{{ x }}"}"#),
        Some(r#"{"max_position_embeddings": 4096, "architectures": ["LlamaForCausalLM"]}"#),
    );
    assert_eq!(texts.chat_template.as_deref(), Some("<think>{{ x }}"));
    assert_eq!(texts.think_end_tag.as_deref(), Some("</think>"));
    assert_eq!(texts.context_window.as_deref(), Some("4096"));
    assert_eq!(texts.architecture.as_deref(), Some("LlamaForCausalLM"));
    let odd = FallbackProber::from_companion_texts(None, Some(r#"{"architectures": [1, "X"]}"#));
    assert!(odd.architecture.is_none() && odd.chat_template.is_none());

    let onnx = ModelProber::probe_weight("tts/kokoro-v1.onnx", None);
    assert_eq!(onnx.architecture, "kokoro");
    assert_eq!(onnx.context_window, "Unknown");
    let gguf = ModelProber::probe_weight(
        "chat/model.gguf",
        Some(GgufProbeResult {
            architecture: Some("llama".to_string()),
            context_window: None,
            chat_template: None,
            quantization: Some("Q4_K_M".to_string()),
            parameter_count: Some("7B".to_string()),
            think_start_tag: None,
            think_end_tag: None,
            is_embedding: false,
            has_vision: false,
        }),
    );
    assert_eq!(gguf.architecture, "llama");
    assert_eq!(gguf.parameters, "7B");
    assert_eq!(gguf.quantization.as_deref(), Some("Q4_K_M"));
    let merged = ModelProber::merge_fallback(gguf, fb);
    assert_eq!(merged.architecture, "llama");
    assert_eq!(merged.context_window, "32768");
    assert_eq!(merged.think_start_tag.as_deref(), Some("<think>"));
    let missing = ModelProber::probe_weight("chat/model.gguf", None);
    assert_eq!(missing.architecture, "Unknown");
    let filled = ModelProber::merge_fallback(
        missing,
        FallbackJsonMetadata {
            context_window: None,
            chat_template: Some("tmpl".to_string()),
            think_start_tag: None,
            think_end_tag: None,
            architecture: Some("Gemma".to_string()),
        },
    );
    assert_eq!(filled.architecture, "Gemma");
    assert_eq!(filled.context_window, "Unknown");
    assert_eq!(filled.chat_template.as_deref(), Some("tmpl"));
}

#[test]
fn taxonomy_chat_rules_and_slot_tags() {
    let mut votes = TaxCaps::default();
    votes.explicit_tasks = vec!["text-generation".to_string()];
    UniversalTaskRules::evaluate_chat_rules("llama-3-instruct", true, &mut votes);
    assert!(votes.is_base && !votes.is_instruct);

    let mut keyword = TaxCaps::default();
    UniversalTaskRules::evaluate_chat_rules("deepseek-coder-instruct", false, &mut keyword);
    assert!(keyword.is_instruct && !keyword.is_base && keyword.has_file);

    let mut declared = TaxCaps::default();
    declared.explicit_tasks = vec!["conversational".to_string()];
    UniversalTaskRules::evaluate_chat_rules("gpt2", false, &mut declared);
    assert!(declared.is_instruct && !declared.is_base);

    let all = TaxCaps::all_true();
    assert!(all.is_reranker && all.chat_completion && all.explicit_tasks.is_empty());
    assert_eq!(
        UniversalTaskRules::get_tasks_for_slot(&SlotType::Tts, &all),
        UniversalTaskRules::get_tasks_for_category("My-TTS-Models")
    );
    assert_eq!(
        UniversalTaskRules::get_tasks_for_slot(&SlotType::Stt, &all),
        UniversalTaskRules::get_tasks_for_category("asr")
    );
}

#[test]
fn tts_violation_texts() {
    let names = vec![chars("big.onnx")];
    assert_eq!(
        TtsAssetResolver::violation_message(TtsContractViolation::OversizedGraph(0), &names),
        "ONNX Weight Pointer Exception: 'big.onnx' is >1.8GB but companion '.onnx.data' weight file is missing!"
    );
    assert_eq!(
        TtsAssetResolver::violation_message(TtsContractViolation::GenericMissingGraph, &names),
        "Generic ONNX TTS Contract Violation: Missing primary .onnx graph file."
    );
}

#[test]
fn category_words_pick_slots() {
    assert_eq!(UniversalTaskRules::get_tasks_for_category("text-to-speech"), UniversalTaskRules::get_tasks_for_slot(&SlotType::Chat, &TaxCaps::default()));
    assert_eq!(UniversalTaskRules::get_tasks_for_category("vision-embedding"), UniversalTaskRules::get_tasks_for_slot(&SlotType::Embedding, &TaxCaps::default()));
}

#[test]
fn capability_resolver_picks_slots() {
    let mut probe = BinaryProbeResult::unknown();
    probe.architecture = "Whisper".to_string();
    probe.has_audio_keys = true;
    probe.quantization = Some("Q8_0".to_string());
    let none = || fallback_facts_from_texts(None, false, None, None, None);
    let (slot, caps, meta) = resolve_capabilities(&probe, "whisper-small", "chat", none());
    assert_eq!(slot, DiscoverySlot::Audio);
    assert!(caps.is_asr);
    assert_eq!(meta.architecture, "Whisper");
    assert_eq!(meta.quantization.as_deref(), Some("Q8_0"));

    let plain = BinaryProbeResult::unknown();
    assert_eq!(resolve_capabilities(&plain, "thing", "vision", none()).0, DiscoverySlot::Vision);
    assert_eq!(resolve_capabilities(&plain, "thing", "embedding", none()).0, DiscoverySlot::Embedding);
    assert_eq!(resolve_capabilities(&plain, "thing", "chat", none()).0, DiscoverySlot::Chat);
    let mut templated = BinaryProbeResult::unknown();
    templated.chat_template = Some("t".to_string());
    assert_eq!(resolve_capabilities(&templated, "thing", "vision", none()).0, DiscoverySlot::Chat);
}
