use cluaiz::chat::{ContentPart, InputAudioContent, MediaUrlContent, MessageContent};
use cluaiz::discovery::capabilities::SlotType as DiscoverySlot;
use cluaiz::entities::{MessageRole, SlotType};
use cluaiz::fetch::asset_bundler::AssetBundler;
use cluaiz::fetch::tts_resolver::TtsAssetResolver;
use cluaiz::listing::{DirEntry, DirListing};
use cluaiz::order::sort_strings;
use cluaiz::prober::VotingArbitrator;
use cluaiz::json::parse_messages;
use cluaiz::prompting::{TemplateManager, CHATML_TEMPLATE, GEMMA4_TEMPLATE};
use cluaiz::registry::vault::ModelVault;
use cluaiz::settings::PermissionSchema;
use cluaiz::taxonomy::classifier::UniversalModelClassifier;

fn listing(names: &[(&str, u64)], voices: &[&str]) -> DirListing {
    DirListing {
        entries: names.iter().map(|(n, s)| DirEntry { name: n.to_string(), size: *s }).collect(),
        voices: voices.iter().map(|v| v.to_string()).collect(),
        has_tokens_txt: false,
        has_lexicon_txt: false,
        has_model_onnx_data: false,
        has_am_mvn: false,
    }
}

#[test]
fn kokoro_package_contract() {
    let ok = listing(&[("kokoro-v1.0.onnx", 300_000_000), ("config.json", 1), ("tokenizer.json", 1)], &["af.bin"]);
    assert_eq!(TtsAssetResolver::validate_family_package_contract("kokoro-v1", &ok), Ok(()));

    let no_voices = listing(&[("kokoro-v1.0.onnx", 1), ("config.json", 1), ("tokenizer.json", 1)], &[]);
    assert_eq!(
        TtsAssetResolver::validate_family_package_contract("kokoro-v1", &no_voices),
        Err("Kokoro Contract Violation: 'voices/' directory is missing or empty! Style vectors (.bin / .json) are required.".to_string())
    );

    let no_tokenizer = listing(&[("kokoro-v1.0.onnx", 1), ("config.json", 1)], &["af.bin"]);
    assert_eq!(
        TtsAssetResolver::validate_family_package_contract("kokoro-v1", &no_tokenizer),
        Err("Kokoro Contract Violation: Missing config.json or tokenizer.json / vocab.json.".to_string())
    );

    let no_graph = listing(&[("config.json", 1)], &["af.bin"]);
    assert_eq!(
        TtsAssetResolver::validate_family_package_contract("kokoro-v1", &no_graph),
        Err("Kokoro Contract Violation: Missing primary ONNX model graph (*kokoro*.onnx or model*.onnx).".to_string())
    );

    let huge = listing(&[("model.onnx", 2_000_000_000), ("config.json", 1), ("tokenizer.json", 1)], &["af.bin"]);
    assert_eq!(
        TtsAssetResolver::validate_family_package_contract("kokoro-v1", &huge),
        Err("ONNX Weight Pointer Exception: 'model.onnx' is >1.8GB but companion '.onnx.data' weight file is missing!".to_string())
    );
}

#[test]
fn tts_file_priorities_and_families() {
    assert_eq!(TtsAssetResolver::score_tts_file_priority("model.onnx"), 0);
    assert_eq!(TtsAssetResolver::score_tts_file_priority("onnx/decoder.onnx"), 1);
    assert_eq!(TtsAssetResolver::score_tts_file_priority("hift.onnx"), 2);
    assert_eq!(TtsAssetResolver::detect_tts_family("org/Kokoro-82M", ""), "kokoro-v1");
    assert_eq!(TtsAssetResolver::detect_tts_family("org/x", "phonemes.json"), "piper-vits");
    assert_eq!(TtsAssetResolver::detect_tts_family("whisper-small", ""), "whisper-gguf");
    assert_eq!(TtsAssetResolver::detect_tts_family("org/x", "model.onnx"), "generic-onnx-tts");
}

#[test]
fn sovereign_ids() {
    assert_eq!(AssetBundler::resolve_sovereign_id("org/Qwen2-GGUF", "qwen2", "x", "q4_k_m"), "qwen2-gguf-Q4_K_M");
    assert_eq!(AssetBundler::resolve_sovereign_id("org/llama", "model", "", ""), "llama");
    assert_eq!(AssetBundler::resolve_sovereign_id("org/llama", "mistral-7b", "", ""), "llama-mistral-7b");
    assert_eq!(AssetBundler::resolve_sovereign_id("org/llama:main", "llama", "", "q8"), "llama");
}

#[test]
fn task_names_are_normalized_and_voted() {
    assert_eq!(VotingArbitrator::normalize_task("ASR"), "automatic-speech-recognition");
    assert_eq!(VotingArbitrator::normalize_task("text-generation"), "chat-completion");
    assert_eq!(VotingArbitrator::normalize_task("Feature-Extraction"), "embedding");
    assert_eq!(VotingArbitrator::normalize_task("other-task"), "other-task");
    let voted = VotingArbitrator::resolve_tasks(
        &vec!["tts".to_string()],
        Some("text-to-speech".to_string()),
        &Vec::new(),
        false,
        "folder",
        "arch",
    );
    assert_eq!(voted, vec!["text-to-speech".to_string()]);
    let mixed = VotingArbitrator::resolve_tasks(
        &Vec::new(),
        None,
        &vec!["feature-extraction".to_string()],
        false,
        "bge-small",
        "bert",
    );
    assert_eq!(mixed, vec!["embedding".to_string()]);
    let none = VotingArbitrator::resolve_tasks(&Vec::new(), None, &Vec::new(), false, "qwen", "qwen2");
    assert!(none.is_empty());
}

#[test]
fn strings_sort_in_order() {
    let v = sort_strings(vec!["b".to_string(), "a".to_string(), "ab".to_string(), "".to_string()]);
    assert_eq!(v, vec!["", "a", "ab", "b"]);
}

#[test]
fn slots_and_roles() {
    assert_eq!(SlotType::from_category("audio"), SlotType::Tts);
    assert_eq!(SlotType::from_category("Text-Embedding"), SlotType::Embedding);
    assert_eq!(SlotType::from_category("whisper"), SlotType::Stt);
    assert_eq!(SlotType::from_category("anything"), SlotType::Chat);
    assert_eq!(SlotType::Ingest.as_str(), "ingest");
    assert_eq!(DiscoverySlot::from_category("Text_Embedding"), DiscoverySlot::Embedding);
    assert_eq!(MessageRole::Assistant.to_string(), "assistant");
}

#[test]
fn classification_of_speech_and_chat_models() {
    let stt = UniversalModelClassifier::classify("whisper-large-v3", None, &[], &[], None);
    assert_eq!(stt.slot, SlotType::Stt);
    assert_eq!(stt.category, "stt");
    let tts = UniversalModelClassifier::classify("org/model", Some("text-to-speech"), &[], &[], None);
    assert_eq!(tts.slot, SlotType::Tts);
    assert!(tts.capabilities.is_tts);
    let chat = UniversalModelClassifier::classify("org/mistral-7b-instruct", Some("text-generation"), &[], &[], None);
    assert_eq!(chat.slot, SlotType::Chat);
    assert_eq!(chat.supported_tasks, vec!["chat-completion", "text-generation"]);
}

#[test]
fn vault_folders_and_endpoints() {
    assert_eq!(ModelVault::chat_dir("/root/models"), "/root/models/chat");
    assert_eq!(ModelVault::tts_dir("/root/models"), "/root/models/tts");
    assert_eq!(ModelVault::chat_endpoint(), "/v1/chat/completions");
    assert_eq!(ModelVault::stt_endpoint(), "/v1/audio/transcriptions");
    assert_eq!(ModelVault::category_dirs("/r").len(), 6);
}

#[test]
fn permission_defaults_and_active_models() {
    let mut s = PermissionSchema::default();
    assert_eq!(s.api_port, 8000);
    assert_eq!(s.wasm_firewall, "auto");
    assert!(s.vectorize_user_input);
    assert!(!s.stream_telemetry);
    assert!(s.lazy_load_model);
    assert!(!s.api_auth.required);
    assert_eq!(s.connection_protocol, "http");
    assert_eq!(s.get_active_chat_model(), None);
    s.set_active_chat_model("qwen".to_string());
    s.set_active_embedding_model("bge".to_string());
    assert_eq!(s.get_active_chat_model(), Some("qwen".to_string()));
    assert_eq!(s.get_active_embedding_model(), Some("bge".to_string()));
    s.auto_assign_defaults();
    assert_eq!(s.get_active_chat_model(), Some("qwen".to_string()));
}

#[test]
fn fallback_templates_by_family() {
    assert_eq!(TemplateManager::fallback_template("gemma-4-it", ""), GEMMA4_TEMPLATE);
    assert_eq!(TemplateManager::fallback_template("qwen2", "<|im_start|>"), CHATML_TEMPLATE);
}

#[test]
fn message_content_flattening() {
    let text = MessageContent::Text("hi".to_string());
    assert_eq!(text.flatten_resolved(&Vec::new()), "hi");
    let parts = MessageContent::Array(vec![
        ContentPart::Text { text: "a".to_string() },
        ContentPart::ImageUrl { image_url: MediaUrlContent { url: "http://x/cat.png".to_string() } },
        ContentPart::InputAudio { input_audio: InputAudioContent { data: "AAA".to_string(), format: "wav".to_string() } },
    ]);
    let flat = parts.flatten_resolved(&vec![None, Some("/tmp/cat.png".to_string()), None]);
    assert_eq!(
        flat,
        "a\n<cluaiz_media type=\"image\" url=\"/tmp/cat.png\" />\n<cluaiz_media type=\"audio\" url=\"data:audio/wav;base64,AAA\" />"
    );
}

#[test]
fn chat_templates_render_with_fallbacks() {
    let tm = TemplateManager;
    let own = "{% for m in messages %}{{ m.role }}:{{ m.content }};{% endfor %}";
    assert_eq!(tm.format("qwen", "", Some(own), "hi"), "user:hi;");
    assert_eq!(
        tm.format("qwen", "", None, "hi"),
        "<|im_start|>user\nhi<|im_end|>\n<|im_start|>assistant\n"
    );
    assert_eq!(
        tm.format("qwen", "", Some("{% for"), "hi"),
        "<|im_start|>user\nhi<|im_end|>\n<|im_start|>assistant\n"
    );
    let json_prompt = r#"[{"role":"system","content":"be brief"},{"role":"user","content":"hi"}]"#;
    assert_eq!(tm.format("qwen", "", Some(own), json_prompt), "system:be brief;user:hi;");
    assert_eq!(tm.format("qwen", "", Some("{{ bos_token }}|{{ eos_token }}|"), "x"), "||");
    let tool_prompt = r#"[{"role":"assistant","content":"","tool_calls":[{"name":"search"}]},{"role":"tool","name":"search","content":"42"}]"#;
    let tool_template = "{% for m in messages %}{% if m.tool_calls %}{{ m.tool_calls[0].name }}(){% else %}{{ m.name }}={{ m.content }}{% endif %};{% endfor %}";
    assert_eq!(tm.format("qwen", "", Some(tool_template), tool_prompt), "search();search=42;");
    assert_eq!(tm.format_turn(None, "hi"), "user\nhi\nassistant\n");
    assert_eq!(tm.format_turn(Some("{{ messages[0].content }}!"), "hi"), "hi!");
    assert!(TemplateManager::is_template_owner("Qwen2-7B", "qwen2-7b"));
    assert!(TemplateManager::is_template_owner("llama", "my-llama-q4"));
    assert!(!TemplateManager::is_template_owner("x", "y"));
    assert_eq!(
        TemplateManager::companion_template("tokenizer_config.json", r#"{"chat_template":"T"}"#).as_deref(),
        Some("T")
    );
    assert_eq!(TemplateManager::companion_template("chat_template.json", "not json"), None);
    assert_eq!(TemplateManager::companion_template("template.jinja", "raw {{ x }}").as_deref(), Some("raw {{ x }}"));
}

#[test]
fn explicit_pipeline_tag_decides_first() {
    let r = UniversalModelClassifier::classify("openai/whisper-small", Some("feature-extraction"), &[], &[], None);
    assert_eq!(r.slot, SlotType::Embedding);
    assert_eq!(r.category, "embedding");
    let chat = UniversalModelClassifier::classify("bge-chat", Some("text-generation"), &[], &[], None);
    assert_eq!(chat.slot, SlotType::Chat);
    let kw = UniversalModelClassifier::classify("openai/whisper-small", None, &[], &[], None);
    assert_eq!(kw.slot, SlotType::Stt);
}

#[test]
fn prompts_parse_into_messages() {
    assert_eq!(
        parse_messages(r#"[{"role":"user","content":"a"}, {"content":"b","name":"x"}, 7]"#),
        vec![
            r#"{"content":"a","role":"user"}"#.to_string(),
            r#"{"content":"b","name":"x"}"#.to_string(),
            "7".to_string(),
        ]
    );
    assert_eq!(parse_messages("plain \"q\""), vec![r#"{"content":"plain \"q\"","role":"user"}"#.to_string()]);
    assert_eq!(parse_messages(r#"{"role":"user"}"#), vec![r#"{"content":"{\"role\":\"user\"}","role":"user"}"#.to_string()]);
    assert_eq!(parse_messages("[]"), Vec::<String>::new());
}
