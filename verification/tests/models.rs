use cluaiz::discovery::capabilities::ModelCapabilities as DiscoveryCaps;
use cluaiz::discovery::fallback::{
    enrich_from_fallback_jsons, fallback_facts_from_texts, ChatTemplateFile, ConfigFacts, FallbackFacts, TokenizerFacts,
};
use cluaiz::discovery::onnx::ONNXProber;
use cluaiz::entities::SlotType;
use cluaiz::fetch::hub::{is_directory_prefix, HfTreeItem, HuggingFaceHub};
use cluaiz::fetch::manifest_plan::{architecture_from_config, hub_info_from_reply, bundle_file, hub_repo_prefix, preferred_parameters, safe_model_id};
use cluaiz::moe::{detect_moe, extract_layer_index, moe_from_config_text, moe_source, GgufMoeDetector, MoeSource, OnnxMoeDetector};
use cluaiz::prober::{hub_metadata_from_text, FallbackJsonMetadata, GgufProbeResult, ModelProber};
use cluaiz::taxonomy::quantization::UniversalQuantization;

#[test]
fn test_onnx_moe_detector() {
    let config_json = r#"{
            "num_experts": 64,
            "num_experts_per_tok": 4,
            "num_hidden_layers": 32
        }"#;
    let info = moe_from_config_text(config_json);
    assert!(info.is_moe);
    assert_eq!(info.expert_count, 64);
    assert_eq!(info.active_experts_per_token, 4);
    assert_eq!(info.moe_layer_count, 32);
}

#[test]
fn test_non_moe_detector() {
    let info = moe_from_config_text("{\n            \"num_hidden_layers\": 32\n        }");
    assert!(!info.is_moe);
}

#[test]
fn moe_config_keys_first_present_wins() {
    let info = moe_from_config_text(r#"{"num_local_experts": 8, "top_k": 2, "num_layers": 24}"#);
    assert!(info.is_moe);
    assert_eq!((info.expert_count, info.active_experts_per_token, info.moe_layer_count), (8, 2, 24));
    // the first present key decides, even when its value is no integer
    let odd = moe_from_config_text(r#"{"num_experts": "many", "n_routed_experts": 64}"#);
    assert!(!odd.is_moe);
    let routed = moe_from_config_text(r#"{"n_routed_experts": 256, "num_experts_per_tok": 8}"#);
    assert_eq!((routed.expert_count, routed.active_experts_per_token, routed.moe_layer_count), (256, 8, 32));
    assert!(!moe_from_config_text("not json").is_moe);
}

#[test]
fn companion_texts_give_facts() {
    let facts = fallback_facts_from_texts(
        Some(r#"{"vision_config": {}, "architectures": ["WhisperForConditionalGeneration", 3]}"#),
        false,
        Some(r#"{"special_tokens_map": {"think_start_token": "<think>", "pad": 0}}"#),
        Some(r#"{"think_end": "</reason>"}"#),
        Some("{{ raw }}"),
    );
    let cfg = facts.config.as_ref().unwrap();
    assert!(cfg.has_vision_keys && !cfg.has_audio_keys);
    assert_eq!(cfg.architectures, vec!["WhisperForConditionalGeneration".to_string()]);
    let tok = facts.tokenizer.as_ref().unwrap();
    assert_eq!(tok.chat_template, None);
    assert_eq!(
        tok.special_tokens,
        vec![("pad".to_string(), None), ("think_start_token".to_string(), Some("<think>".to_string()))]
    );
    assert_eq!(facts.special_tokens_file, Some(vec![("think_end".to_string(), Some("</reason>".to_string()))]));
    assert!(matches!(facts.chat_template_file, Some(ChatTemplateFile::Raw(ref t)) if t == "{{ raw }}"));
    let mut caps = DiscoveryCaps::default();
    caps.is_instruct = true;
    let extra = enrich_from_fallback_jsons(facts, &mut caps);
    assert!(caps.has_vision && caps.is_asr);
    assert_eq!(extra.chat_template, Some("{{ raw }}".to_string()));
    assert_eq!(extra.think_start_tag, Some("<think>".to_string()));
    assert_eq!(extra.think_end_tag, Some("</reason>".to_string()));

    let broken = fallback_facts_from_texts(Some("{"), true, Some("["), None, Some(r#"{"chat_template": "T"}"#));
    assert!(broken.config.is_none() && broken.tokenizer.is_none() && broken.has_processor_config);
    assert!(matches!(broken.chat_template_file, Some(ChatTemplateFile::Parsed(Some(ref t))) if t == "T"));
}

#[test]
fn hub_metadata_text_gives_tag_and_tags() {
    let (tag, tags) = hub_metadata_from_text(Some(r#"{"pipeline_tag": "text-generation", "tags": ["gguf", 1, "chat"]}"#));
    assert_eq!(tag.as_deref(), Some("text-generation"));
    assert_eq!(tags, vec!["gguf".to_string(), "chat".to_string()]);
    assert_eq!(hub_metadata_from_text(None), (None, Vec::new()));
    assert_eq!(hub_metadata_from_text(Some("oops")), (None, Vec::new()));
}

#[test]
fn onnx_moe_defaults() {
    let info = OnnxMoeDetector::parse_config(Some(16), None, None);
    assert!(info.is_moe);
    assert_eq!(info.active_experts_per_token, 2);
    assert_eq!(info.moe_layer_count, 32);
    assert_eq!(info.expert_size_bytes, 0);
    let one = OnnxMoeDetector::parse_config(Some(4), None, None);
    assert_eq!(one.active_experts_per_token, 1);
}

fn kv(k: &str, v: &str) -> (String, String) {
    (k.to_string(), v.to_string())
}

fn tensor(name: &str, dims: &[u64]) -> (String, Vec<u64>) {
    (name.to_string(), dims.to_vec())
}

#[test]
fn gguf_moe_headers_are_measured() {
    let meta = vec![kv("llm.expert_count", "8"), kv("llm.expert_used_count", "2"), kv("llama.block_count", "2")];
    let tensors = vec![
        tensor("blk.0.ffn_gate_exps.weight", &[800]),
        tensor("blk.1.ffn_gate_exps.weight", &[1600]),
        tensor("blk.0.ffn_up_exps.weight", &[800]),
        tensor("blk.0.attn_q.weight", &[100, 20]),
    ];
    let info = GgufMoeDetector::detect(&meta, &tensors);
    assert!(info.is_moe);
    assert_eq!(info.expert_count, 8);
    assert_eq!(info.moe_layer_count, 2);
    assert_eq!(info.active_experts_per_token, 2);
    assert_eq!(info.total_expert_bytes, 3200);
    assert_eq!(info.expert_size_bytes, 450);
    assert_eq!(info.dense_backbone_bytes, 120);
    assert_eq!(info.recommended_cache_bytes(), 16 * 450);

    let dense = GgufMoeDetector::detect(&vec![kv("llama.block_count", "32")], &tensors);
    assert!(!dense.is_moe);
    assert_eq!(dense.expert_count, 0);
}

#[test]
fn moe_detection_dispatches_on_extension() {
    let meta = vec![kv("llm.expert_count", "8"), kv("llm.expert_used_count", "2"), kv("llama.block_count", "2")];
    let tensors = vec![tensor("blk.0.ffn_gate_exps.weight", &[800])];
    let config = r#"{"num_experts": 16}"#;
    assert_eq!(detect_moe("m/model.GGUF", &meta, &tensors, Some(config)).expert_count, 8);
    assert_eq!(detect_moe("m/model.onnx", &meta, &tensors, Some(config)).expert_count, 16);
    assert!(!detect_moe("m/model.onnx", &meta, &tensors, None).is_moe);
    assert!(!detect_moe("w.safetensors", &meta, &tensors, Some(config)).is_moe);
}

#[test]
fn layer_indices_and_sources() {
    assert_eq!(extract_layer_index("blk.42.ffn_gate_exps.weight"), Some(42));
    assert_eq!(extract_layer_index("model.layers.7.mlp.experts"), Some(7));
    assert_eq!(extract_layer_index("token_embd.weight"), None);
    assert!(matches!(moe_source("/m/model.GGUF"), MoeSource::Gguf));
    assert!(matches!(moe_source("/m/model.onnx"), MoeSource::Onnx));
    assert!(matches!(moe_source("/m/model.bin"), MoeSource::Unsupported));
}

#[test]
fn quantization_tags_and_parameters() {
    assert_eq!(UniversalQuantization::extract_quant_tag("qwen-7b-q4_k_m.gguf"), "Q4_K_M");
    assert_eq!(UniversalQuantization::extract_quant_tag("model.onnx"), "ONNX");
    assert_eq!(UniversalQuantization::extract_parameters_from_name("qwen-7b-q4_k_m.gguf", "Q4_K_M"), "7B");
    assert_eq!(UniversalQuantization::extract_parameters_from_name("Qwen2.5-7B-Instruct-Q4_K_M.gguf", "Q4_K_M"), "7B");
    assert_eq!(UniversalQuantization::extract_parameters_from_name("Qwen2-1.5B-Instruct-Q4_K_M.gguf", "Q4_K_M"), "1.5B");
}

#[test]
fn onnx_initializers_are_counted() {
    let model = vec![0x12u8, 6, 0x2A, 4, 0x38, 3, 0x38, 4];
    let mut ctx: Option<String> = None;
    assert_eq!(ONNXProber::parse_protobuf_initializers(&model, &mut ctx), 12);
    let packed = vec![0x12u8, 6, 0x2A, 4, 0x3A, 2, 5, 6];
    assert_eq!(ONNXProber::parse_protobuf_initializers(&packed, &mut ctx), 30);
    assert_eq!(ONNXProber::probe_buffers(&vec![model, packed]).0, 42);
}

fn tree(path: &str, size: u64) -> HfTreeItem {
    HfTreeItem { path: path.to_string(), size: Some(size), entry_type: Some("file".to_string()) }
}

#[test]
fn hub_variants_bundle_metadata() {
    let items = vec![tree("qwen-7b-q4_k_m.gguf", 100), tree("config.json", 1), tree("README.md", 2)];
    let vs = HuggingFaceHub::list_variants("org/qwen", &items).ok().unwrap();
    assert_eq!(vs.len(), 1);
    assert_eq!(vs[0].format_type, "gguf");
    assert_eq!(vs[0].primary_file, "qwen-7b-q4_k_m.gguf");
    assert_eq!(vs[0].variant_id, "qwen-7b-q4_k_m.gguf");
    assert_eq!(vs[0].quant_tag, "Q4_K_M");
    assert_eq!(vs[0].size_bytes, 100);
    assert!(vs[0].all_files.contains(&"config.json".to_string()));
    assert!(!vs[0].all_files.contains(&"README.md".to_string()));

    let none = HuggingFaceHub::list_variants("org/empty", &vec![tree("README.md", 2)]);
    assert_eq!(
        none.err(),
        Some("No supported model files (.gguf, .onnx) found in repository 'org/empty'.".to_string())
    );
}

#[test]
fn hub_links_and_names() {
    assert_eq!(
        HuggingFaceHub::next_page_url("<https://huggingface.co/api/x?cursor=abc>; rel=\"next\""),
        Some("https://huggingface.co/api/x?cursor=abc".to_string())
    );
    assert_eq!(HuggingFaceHub::next_page_url(""), None);
    assert_eq!(HuggingFaceHub::repo_display_name("org/model-name"), "model-name");
    assert_eq!(HuggingFaceHub::usable_token("  hf_abc \n"), Some("hf_abc".to_string()));
    assert_eq!(HuggingFaceHub::usable_token("   "), None);
    assert_eq!(
        HuggingFaceHub::download_url("org/m", "a/b.gguf"),
        "https://huggingface.co/org/m/resolve/main/a/b.gguf"
    );
}

#[test]
fn custom_manifest_plans() {
    let p = HuggingFaceHub::plan_custom_manifest(
        "Org/Qwen2-VL",
        "sub/Qwen2-VL-Q4.gguf",
        Some("image-text-to-text"),
        "Qwen2VLForConditionalGeneration",
    );
    assert_eq!(p.id, "qwen2-vl-qwen2-vl-q4");
    assert_eq!(p.architecture_type, "gguf");
    assert!(!p.is_onnx);
    assert_eq!(p.architecture, "Qwen2VL");
    assert_eq!(p.huggingface_filename, "Qwen2-VL-Q4.gguf");
    assert_eq!(p.download_url, "https://huggingface.co/Org/Qwen2-VL/resolve/main/sub/Qwen2-VL-Q4.gguf");
    assert!(p.has_vision);
    assert_eq!(p.input_modality, "Text + Vision");
    assert_eq!(p.family, "qwen2-vl");
    assert_eq!(p.category, "vision");

    let q = HuggingFaceHub::plan_custom_manifest("org/kokoro-82m", "model.onnx", None, "");
    assert_eq!(q.id, "kokoro-82m");
    assert_eq!(q.architecture, "ONNX Graph");
    assert_eq!(q.category, "audio");
    assert_eq!(q.input_modality, "Text");

    let e = HuggingFaceHub::plan_custom_manifest("org/bge-small", "bge.gguf", Some("feature-extraction"), "BertModel");
    assert_eq!(e.category, "embedding");
    assert_eq!(e.architecture, "Bert");
}

#[test]
fn bundle_downloads_are_planned() {
    assert_eq!(safe_model_id("qwen:7b:q4"), "qwen-7b-q4");
    assert_eq!(
        hub_repo_prefix("https://huggingface.co/org/m/resolve/main/x.gguf"),
        Some("https://huggingface.co/org/m".to_string())
    );
    assert_eq!(hub_repo_prefix("https://example.com/x.gguf"), None);
    assert_eq!(
        bundle_file("https://huggingface.co/org/m", "voices/af.bin"),
        ("voices/af.bin".to_string(), "https://huggingface.co/org/m/resolve/main/voices/af.bin".to_string())
    );
    assert_eq!(
        bundle_file("https://huggingface.co/org/m", "onnx/model.onnx"),
        ("model.onnx".to_string(), "https://huggingface.co/org/m/resolve/main/onnx/model.onnx".to_string())
    );
    assert_eq!(preferred_parameters("7B".to_string(), "Effective 2B"), "Effective 2B");
    assert_eq!(preferred_parameters("7B".to_string(), "Unknown"), "7B");
    assert_eq!(preferred_parameters("7B".to_string(), "  "), "7B");
}

fn no_fallback() -> FallbackJsonMetadata {
    FallbackJsonMetadata {
        context_window: None,
        chat_template: None,
        think_start_tag: None,
        think_end_tag: None,
        architecture: None,
    }
}

#[test]
fn discovery_of_a_gguf_chat_model() {
    let probe = GgufProbeResult {
        architecture: Some("qwen2".to_string()),
        context_window: Some("32768".to_string()),
        chat_template: Some("{{ messages }}".to_string()),
        quantization: Some("Q4_K_M".to_string()),
        parameter_count: Some("7.6B".to_string()),
        think_start_tag: None,
        think_end_tag: None,
        is_embedding: false,
        has_vision: false,
    };
    let (slot, caps, meta, gpu) = ModelProber::discover(
        "/m/chat/qwen/qwen2-7b-q4_k_m.gguf",
        "/m/chat/qwen",
        "chat",
        Some(probe),
        no_fallback(),
        None,
        &Vec::new(),
        false,
        &vec!["qwen2-7b-q4_k_m.gguf".to_string()],
    );
    assert_eq!(slot, SlotType::Chat);
    assert!(!gpu);
    assert_eq!(meta.architecture, "qwen2");
    assert_eq!(meta.context_window, "32768");
    assert_eq!(meta.parameters, "7.6B");
    assert_eq!(meta.quantization, Some("Q4_K_M".to_string()));
    assert_eq!(meta.backend_type, Some("gguf".to_string()));
    assert_eq!(meta.chat_template, Some("{{ messages }}".to_string()));
    assert!(meta.bit_depth.is_none());
    assert!(caps.explicit_tasks.is_empty());
}

#[test]
fn discovery_of_an_onnx_speech_model() {
    let fallback = FallbackJsonMetadata {
        context_window: None,
        chat_template: None,
        think_start_tag: None,
        think_end_tag: None,
        architecture: Some("StyleTTS2".to_string()),
    };
    let (slot, caps, meta, _) = ModelProber::discover(
        "/m/tts/kokoro/kokoro-v1.0.onnx",
        "/m/tts/kokoro",
        "",
        None,
        fallback,
        None,
        &Vec::new(),
        false,
        &vec!["kokoro-v1.0.onnx".to_string(), "voices.bin".to_string()],
    );
    assert_eq!(meta.architecture, "kokoro");
    assert_eq!(meta.backend_type, Some("onnx".to_string()));
    assert_eq!(slot, SlotType::Tts);
    assert_eq!(meta.context_window, "30s (3000 frames)");
    assert_eq!(caps.explicit_tasks, vec!["text-to-speech".to_string()]);
    assert!(caps.is_tts);
}

#[test]
fn discovery_fills_gaps_from_companion_files() {
    let fallback = FallbackJsonMetadata {
        context_window: Some("8192".to_string()),
        chat_template: Some("<think>".to_string()),
        think_start_tag: Some("<think>".to_string()),
        think_end_tag: Some("</think>".to_string()),
        architecture: Some("LlamaForCausalLM".to_string()),
    };
    let (_, _, meta, _) = ModelProber::discover(
        "/m/chat/x/model.gguf",
        "/m/chat/x",
        "chat",
        None,
        fallback,
        None,
        &Vec::new(),
        false,
        &Vec::new(),
    );
    assert_eq!(meta.architecture, "LlamaForCausalLM");
    assert_eq!(meta.context_window, "8192");
    assert_eq!(meta.parameters, "Unknown");
    assert_eq!(meta.think_start_tag, Some("<think>".to_string()));
}

#[test]
fn companion_json_enrichment() {
    let mut caps = DiscoveryCaps::default();
    caps.is_instruct = true;
    let facts = FallbackFacts {
        config: Some(ConfigFacts {
            has_vision_keys: true,
            has_audio_keys: false,
            architectures: vec!["WhisperForConditionalGeneration".to_string()],
        }),
        has_processor_config: false,
        tokenizer: Some(TokenizerFacts {
            chat_template: None,
            special_tokens: vec![
                ("think_start_token".to_string(), Some("<think>".to_string())),
                ("reasoning_end".to_string(), Some("</think>".to_string())),
                ("bos".to_string(), Some("<s>".to_string())),
            ],
        }),
        special_tokens_file: Some(vec![("think_end".to_string(), Some("</reason>".to_string()))]),
        chat_template_file: Some(ChatTemplateFile::Raw("{{ raw }}".to_string())),
    };
    let extra = enrich_from_fallback_jsons(facts, &mut caps);
    assert!(caps.has_vision);
    assert!(caps.is_vision_chat);
    assert!(caps.has_audio);
    assert!(caps.is_asr);
    assert!(!caps.is_tts);
    assert_eq!(extra.chat_template, Some("{{ raw }}".to_string()));
    assert_eq!(extra.think_start_tag, Some("<think>".to_string()));
    assert_eq!(extra.think_end_tag, Some("</reason>".to_string()));

    let mut plain = DiscoveryCaps::default();
    let facts = FallbackFacts {
        config: None,
        has_processor_config: true,
        tokenizer: Some(TokenizerFacts { chat_template: Some("T".to_string()), special_tokens: Vec::new() }),
        special_tokens_file: None,
        chat_template_file: Some(ChatTemplateFile::Parsed(Some("ignored".to_string()))),
    };
    let extra = enrich_from_fallback_jsons(facts, &mut plain);
    assert!(plain.has_vision);
    assert!(!plain.is_vision_chat);
    assert_eq!(extra.chat_template, Some("T".to_string()));
    assert_eq!(extra.think_start_tag, None);
}

#[test]
fn metadata_directory_prefix() {
    assert!(is_directory_prefix("config.json", "q4/model.gguf"));
    assert!(is_directory_prefix("q4/config.json", "q4/sub/model.gguf"));
    assert!(is_directory_prefix("q4/config.json", "q4/model.gguf"));
    assert!(!is_directory_prefix("q8/config.json", "q4/model.gguf"));
    assert!(!is_directory_prefix("a/b/config.json", "a/model.gguf"));
    assert!(is_directory_prefix("/q4/config.json", "q4/model.gguf"));
    assert!(!is_directory_prefix("q4/config.json", "model.gguf"));
}

#[test]
fn hub_replies_name_architecture_and_tag() {
    let reply = r#"{"config": {"architectures": ["Qwen2ForCausalLM"]}, "model_type": "ignored", "pipeline_tag": "text-generation"}"#;
    let (arch, tag) = hub_info_from_reply(reply);
    assert_eq!(arch, "Qwen2ForCausalLM");
    assert_eq!(tag.as_deref(), Some("text-generation"));
    let (arch, tag) = hub_info_from_reply(r#"{"config": {}, "model_type": "llama"}"#);
    assert_eq!((arch.as_str(), tag), ("llama", None));
    assert_eq!(hub_info_from_reply("not json"), (String::new(), None));
    assert_eq!(architecture_from_config(r#"{"model_type": "phi3", "architectures": ["X"]}"#).as_deref(), Some("phi3"));
    assert_eq!(architecture_from_config(r#"{"architectures": [1]}"#), None);
}
