use cluaiz::codec::{base64_decode, base64_encode};
use cluaiz::discovery::capabilities::RegistryModelMetadata;
use cluaiz::entities::SlotType;
use cluaiz::registry::installed::{
    build_registry_entry, entry_in_slot, pulled_registry_entry, order_audio_weights, should_prune, split_folder, ExtraItem, FolderItem,
    ModelRegistryEntry, WeightFile,
};
use cluaiz::registry::model_registry::ModelRegistry;
use cluaiz::registry::registry_index::{MasterRegistry, RegistryEntry};
use cluaiz::taxonomy::rules::ModelCapabilities;

fn item(name: &str, size: u64, is_dir: bool) -> FolderItem {
    FolderItem { name: name.to_string(), size, is_dir }
}

fn metadata() -> RegistryModelMetadata {
    RegistryModelMetadata {
        architecture: "llama".to_string(),
        parameters: "7B".to_string(),
        context_window: "4096".to_string(),
        quantization: None,
        bit_depth: None,
        tts_family: None,
        stt_family: None,
        backend_type: Some("gguf".to_string()),
        think_start_tag: None,
        think_end_tag: None,
        chat_template: None,
    }
}

fn caps() -> ModelCapabilities {
    ModelCapabilities {
        is_instruct: true,
        is_base: false,
        is_embedding: false,
        is_feature_extraction: false,
        is_reranker: false,
        is_tts: false,
        is_asr: false,
        is_audio_to_audio: false,
        has_vision: false,
        is_vision_chat: false,
        has_file: false,
        chat_completion: true,
        tts_family: None,
        stt_family: None,
        explicit_tasks: Vec::new(),
    }
}

#[test]
fn base64_known_vectors() {
    assert_eq!(base64_encode(b"hello"), "aGVsbG8=");
    assert_eq!(base64_encode(b""), "");
    assert_eq!(base64_encode(b"ab"), "YWI=");
    assert_eq!(base64_encode(b"abc"), "YWJj");
    assert_eq!(base64_decode("aGVsbG8=").unwrap(), b"hello".to_vec());
    assert_eq!(base64_decode("aGVs\nbG8=").unwrap(), b"hello".to_vec());
    assert_eq!(base64_decode("YWI=").unwrap(), b"ab".to_vec());
}

#[test]
fn base64_round_trip_on_all_byte_values() {
    let bytes: Vec<u8> = (0u8..=255).collect();
    let text = base64_encode(&bytes);
    assert_eq!(base64_decode(&text).unwrap(), bytes);
}

#[test]
fn model_folders_are_split_into_weights_and_extras() {
    let items = vec![
        item(".hidden", 1, false),
        item("cluaiz-engine.ready", 0, false),
        item("model-q4.gguf", 400, false),
        item("config.json", 2, false),
        item("voices", 0, true),
        item("decoder.onnx", 90, false),
    ];
    let (weights, extras) = split_folder(&items);
    let w: Vec<(String, u64)> = weights.iter().map(|w| (w.name.clone(), w.size)).collect();
    assert_eq!(w, vec![("model-q4.gguf".to_string(), 400), ("decoder.onnx".to_string(), 90)]);
    let e: Vec<(String, bool)> = extras.iter().map(|e| (e.name.clone(), e.is_dir)).collect();
    assert_eq!(e, vec![("config.json".to_string(), false), ("voices".to_string(), true)]);
}

#[test]
fn registry_entries_mark_the_first_weight_primary() {
    let weights = vec![
        WeightFile { name: "model-q4.gguf".to_string(), size: 400 },
        WeightFile { name: "mmproj.gguf".to_string(), size: 20 },
    ];
    let extras = vec![ExtraItem { name: "config.json".to_string(), is_dir: false }];
    let e = build_registry_entry(
        "llama-7b",
        "/models/chat/llama-7b",
        &weights,
        extras,
        SlotType::Chat,
        &caps(),
        metadata(),
        false,
        Some("org/llama".to_string()),
    )
    .unwrap();
    assert_eq!(e.id, "llama-7b");
    assert_eq!(e.category, "chat");
    assert_eq!(e.format_type, "gguf");
    assert_eq!(e.huggingface_repo, "org/llama");
    assert_eq!(e.local_dir, "/models/chat/llama-7b");
    let files: Vec<(String, u64, bool)> = e.files.iter().map(|f| (f.name.clone(), f.size_bytes, f.is_primary)).collect();
    assert_eq!(files, vec![("model-q4.gguf".to_string(), 400, true), ("mmproj.gguf".to_string(), 20, false)]);
    assert_eq!(e.supported_tasks, vec!["text-generation", "chat-completion"]);
    assert_eq!(e.extra_files.len(), 1);

    let none = build_registry_entry(
        "empty",
        "/models/chat/empty",
        &Vec::new(),
        Vec::new(),
        SlotType::Chat,
        &caps(),
        metadata(),
        false,
        None,
    );
    assert!(none.is_none());

    let onnx = build_registry_entry(
        "kokoro",
        "/models/tts/kokoro",
        &vec![WeightFile { name: "kokoro.onnx".to_string(), size: 1 }],
        Vec::new(),
        SlotType::Tts,
        &caps(),
        metadata(),
        false,
        None,
    )
    .unwrap();
    assert_eq!(onnx.format_type, "onnx");
    assert_eq!(onnx.huggingface_repo, "");
    assert_eq!(onnx.supported_tasks, vec!["text-to-speech", "voice-synthesis"]);
}

fn entry(name: &str) -> RegistryEntry {
    RegistryEntry { name: name.to_string(), id: name.to_string(), ..RegistryEntry::default() }
}

#[test]
fn registered_components_read_back_and_deregister() {
    let mut reg = MasterRegistry::default();
    assert!(reg.register_component("plugin", "calc", entry("calc")).is_ok());
    assert!(reg.register_component("skills", "search", entry("search")).is_ok());
    assert_eq!(reg.plugins.get("calc").map(|e| e.name.clone()), Some("calc".to_string()));
    assert_eq!(reg.skills.get("search").map(|e| e.id.clone()), Some("search".to_string()));
    assert!(reg.mcp.get("calc").is_none());

    let refused = reg.register_component("widget", "x", entry("x"));
    assert_eq!(refused.err().map(|e| e.message()), Some("Unknown component type: widget".to_string()));

    assert!(reg.deregister_component("plugin", "calc").is_ok());
    assert!(reg.plugins.get("calc").is_none());
    let missing = reg.deregister_component("plugin", "calc");
    assert_eq!(missing.err().map(|e| e.message()), Some("Component 'calc' not found in registry".to_string()));
}

#[test]
fn re_registering_replaces_the_entry() {
    let mut reg = MasterRegistry::default();
    assert!(reg.register_component("mcp", "fs", entry("first")).is_ok());
    assert!(reg.register_component("mcp", "fs", entry("second")).is_ok());
    assert_eq!(reg.mcp.len(), 1);
    assert_eq!(reg.mcp.get("fs").map(|e| e.name.clone()), Some("second".to_string()));
}

#[test]
fn audio_weights_are_ranked_by_class_then_name() {
    let names = ["speaker_encoder.onnx", "hift.onnx", "flow.onnx", "b_tts.onnx", "a.onnx"];
    let ws: Vec<WeightFile> = names.iter().map(|n| WeightFile { name: n.to_string(), size: 1 }).collect();
    let ordered: Vec<String> = order_audio_weights(ws).into_iter().map(|w| w.name).collect();
    assert_eq!(ordered, vec!["b_tts.onnx", "flow.onnx", "a.onnx", "hift.onnx", "speaker_encoder.onnx"]);
}

#[test]
fn stale_registry_entries_are_pruned() {
    assert!(should_prune(false, None));
    assert!(should_prune(true, Some(false)));
    assert!(!should_prune(true, Some(true)));
    assert!(!should_prune(true, None));
    assert!(entry_in_slot("tts", SlotType::Tts));
    assert!(!entry_in_slot("audio", SlotType::Tts));
}

fn installed(id: &str, category: &str, repo: &str) -> ModelRegistryEntry {
    ModelRegistryEntry {
        id: id.to_string(),
        category: category.to_string(),
        format_type: "gguf".to_string(),
        huggingface_repo: repo.to_string(),
        local_dir: format!("/models/{}/{}", category, id),
        files: Vec::new(),
        extra_files: Vec::new(),
        supported_tasks: Vec::new(),
        requires_gpu: false,
        metadata: metadata(),
    }
}

#[test]
fn model_registry_register_and_read_back() {
    let mut reg = ModelRegistry::new();
    assert_eq!(reg.len(), 0);
    reg.register_model(installed("llama-7b", "chat", "org/llama"));
    reg.register_model(installed("bge", "embedding", "org/bge"));
    assert_eq!(reg.len(), 2);
    assert_eq!(reg.get("llama-7b").unwrap().huggingface_repo, "org/llama");
    reg.register_model(installed("llama-7b", "chat", "org/llama-v2"));
    assert_eq!(reg.len(), 2);
    assert_eq!(reg.get("llama-7b").unwrap().huggingface_repo, "org/llama-v2");
    assert_eq!(reg.get("bge").unwrap().huggingface_repo, "org/bge");
    assert!(reg.get("missing").is_none());
}

#[test]
fn model_registry_unregister() {
    let mut reg = ModelRegistry::new();
    reg.register_model(installed("a", "chat", "r/a"));
    reg.register_model(installed("b", "chat", "r/b"));
    let gone = reg.unregister_model("a").unwrap();
    assert_eq!(gone.id, "a");
    assert!(reg.get("a").is_none());
    assert_eq!(reg.get("b").unwrap().id, "b");
    assert!(reg.unregister_model("a").is_none());
    assert_eq!(reg.len(), 1);
    let ids: Vec<String> = reg.into_entries().into_iter().map(|e| e.id).collect();
    assert_eq!(ids, vec!["b".to_string()]);
}

#[test]
fn model_registry_models_for_slot() {
    let mut reg = ModelRegistry::new();
    reg.register_model(installed("a", "chat", "r/a"));
    reg.register_model(installed("e", "embedding", "r/e"));
    reg.register_model(installed("b", "chat", "r/b"));
    let chat: Vec<&str> = reg.get_models_for_slot(SlotType::Chat).iter().map(|e| e.id.as_str()).collect();
    assert_eq!(chat, vec!["a", "b"]);
    let emb: Vec<&str> = reg.get_models_for_slot(SlotType::Embedding).iter().map(|e| e.id.as_str()).collect();
    assert_eq!(emb, vec!["e"]);
    assert!(reg.get_models_for_slot(SlotType::Tts).is_empty());
    assert_eq!(reg.entries().len(), 3);
}

#[test]
fn scanned_folders_are_recorded_keeping_the_repository() {
    let mut table = ModelRegistry::new();
    let first = build_registry_entry(
        "llama-7b",
        "/old",
        &vec![WeightFile { name: "a.gguf".to_string(), size: 1 }],
        Vec::new(),
        SlotType::Chat,
        &caps(),
        metadata(),
        false,
        Some("org/llama".to_string()),
    )
    .unwrap();
    table.register_model(first);
    let weights = vec![WeightFile { name: "model.onnx".to_string(), size: 9 }];
    assert!(table.record_scanned_folder("llama-7b", "/models/chat/llama-7b", &weights, Vec::new(), SlotType::Chat, &caps(), metadata(), false));
    let e = table.get("llama-7b").unwrap();
    assert_eq!(e.huggingface_repo, "org/llama");
    assert_eq!(e.local_dir, "/models/chat/llama-7b");
    assert_eq!(e.format_type, "onnx");
    assert_eq!(table.len(), 1);
    assert!(table.record_scanned_folder("new", "/m/new", &weights, Vec::new(), SlotType::Tts, &caps(), metadata(), true));
    assert_eq!(table.get("new").unwrap().huggingface_repo, "");
    assert!(!table.record_scanned_folder("empty", "/m/empty", &Vec::new(), Vec::new(), SlotType::Chat, &caps(), metadata(), false));
    assert!(table.get("empty").is_none());
    assert_eq!(table.len(), 2);
}

#[test]
fn pulled_bundles_become_registry_entries() {
    let weights = vec![
        WeightFile { name: "speaker_encoder.onnx".to_string(), size: 5 },
        WeightFile { name: "flow_estimator.onnx".to_string(), size: 50 },
    ];
    let extras = vec![ExtraItem { name: "config.json".to_string(), is_dir: false }];
    let e = pulled_registry_entry(
        "org:cosy",
        "flow_estimator.onnx",
        "org/cosy",
        "0.5B",
        "/m/tts/org-cosy",
        &weights,
        extras,
        "[\"config.json\"]",
        SlotType::Tts,
        &caps(),
        metadata(),
        true,
    );
    assert_eq!(e.id, "org-cosy");
    assert_eq!(e.category, "tts");
    assert_eq!(e.format_type, "onnx");
    assert_eq!(e.huggingface_repo, "org/cosy");
    let a = cluaiz::fetch::asset_bundler::AssetBundler::score_model_file_priority("tts", "speaker_encoder.onnx");
    let b = cluaiz::fetch::asset_bundler::AssetBundler::score_model_file_priority("tts", "flow_estimator.onnx");
    let primary = if b < a { "flow_estimator.onnx" } else { "speaker_encoder.onnx" };
    for f in &e.files {
        assert_eq!(f.is_primary, f.name == primary);
    }
    assert_eq!(e.metadata.parameters, "0.5B");
    assert_eq!(e.metadata.backend_type.as_deref(), Some("onnx"));
    assert_eq!(e.metadata.tts_family, None);
    assert!(e.requires_gpu);

    let chat = pulled_registry_entry(
        "llama", "model-q4.gguf", "", "Unknown", "/m/chat/llama",
        &vec![WeightFile { name: "a.gguf".to_string(), size: 1 }, WeightFile { name: "b.gguf".to_string(), size: 2 }],
        Vec::new(), "[]", SlotType::Chat, &caps(), metadata(), false,
    );
    assert_eq!(chat.format_type, "gguf");
    assert_eq!(chat.metadata.backend_type.as_deref(), Some("ggml"));
    assert_eq!(chat.metadata.parameters, "7B");
    assert_eq!(chat.files.iter().map(|f| f.is_primary).collect::<Vec<_>>(), vec![true, false]);
    assert_eq!(chat.supported_tasks, vec!["text-generation", "chat-completion"]);
}
