use cluaiz::serving::requests::{
    cache_sizes, files_processed, is_temporary_cache_file, ChunkingStrategy, EmbeddingInput, EmbeddingUsage, GetFileQuery,
    IngestPayload, InputSource, LoadPayload, OutputControls, SourceInput, VisionSettings, DEFAULT_CHUNK_SIZE,
};

fn bare_ingest(source: SourceInput) -> IngestPayload {
    IngestPayload {
        source,
        namespace: None,
        model: None,
        output_controls: None,
        chunking_strategy: None,
        vision_settings: None,
    }
}

#[test]
fn embedding_input_single_and_multiple() {
    assert_eq!(EmbeddingInput::Single("hello".to_string()).into_texts(), vec!["hello".to_string()]);
    let many = vec!["a".to_string(), "b c".to_string()];
    assert_eq!(EmbeddingInput::Multiple(many.clone()).into_texts(), many);
}

#[test]
fn embedding_usage_counts_words() {
    let texts = vec!["hello world".to_string(), "  one   two three ".to_string(), String::new()];
    let usage = EmbeddingUsage::of(&texts);
    assert_eq!(usage.prompt_tokens, 5);
    assert_eq!(usage.total_tokens, 5);
}

#[test]
fn input_source_kinds() {
    let audio = InputSource { source_type: "base64".to_string(), data: "AAAA".to_string() };
    let text = InputSource { source_type: "text".to_string(), data: "say hi".to_string() };
    assert_eq!(audio.kind(), (true, false));
    assert_eq!(text.kind(), (false, true));
}

#[test]
fn ingest_defaults() {
    let p = bare_ingest(SourceInput::Single("doc.pdf".to_string()));
    assert!(p.returns_embeddings());
    assert!(p.returns_text());
    assert_eq!(p.chunk_size(), 512);
    assert_eq!(DEFAULT_CHUNK_SIZE, 512);
    assert_eq!(p.namespace_or_default(), "default");
    assert_eq!(p.vision_instruction(), None);
    assert_eq!(p.sources(), vec!["doc.pdf".to_string()]);
}

#[test]
fn ingest_given_settings() {
    let mut p = bare_ingest(SourceInput::Multiple(vec!["a.txt".to_string(), "b.png".to_string()]));
    p.namespace = Some("papers".to_string());
    p.output_controls = Some(OutputControls { return_text: Some(false), return_embeddings: Some(false) });
    p.chunking_strategy =
        Some(ChunkingStrategy { strategy_type: Some("semantic".to_string()), max_chunk_size: Some(128), overlap: None });
    p.vision_settings = Some(VisionSettings {
        use_vision: Some(true),
        detail_level: None,
        system_instruction: Some("Describe the chart".to_string()),
    });
    assert!(!p.returns_embeddings());
    assert!(!p.returns_text());
    assert_eq!(p.chunk_size(), 128);
    assert_eq!(p.namespace_or_default(), "papers");
    assert_eq!(p.vision_instruction(), Some("Describe the chart".to_string()));
    assert_eq!(p.sources(), vec!["a.txt".to_string(), "b.png".to_string()]);
}

#[test]
fn ingest_partial_output_controls() {
    let mut p = bare_ingest(SourceInput::Single("x".to_string()));
    p.output_controls = Some(OutputControls { return_text: None, return_embeddings: Some(false) });
    assert!(!p.returns_embeddings());
    assert!(p.returns_text());
}

#[test]
fn processed_files_exclude_failures() {
    assert_eq!(files_processed(5, 2), 3);
    assert_eq!(files_processed(3, 0), 3);
}

#[test]
fn file_query_targets() {
    let given = GetFileQuery {
        component_type: "skills".to_string(),
        component_id: "x".to_string(),
        file_path: Some("notes/readme.md".to_string()),
    };
    assert_eq!(given.target_file(), "notes/readme.md");
    let skill = GetFileQuery { component_type: "skills".to_string(), component_id: "x".to_string(), file_path: None };
    assert_eq!(skill.target_file(), "SKILL.md");
    let tool = GetFileQuery { component_type: "tools".to_string(), component_id: "x".to_string(), file_path: None };
    assert_eq!(tool.target_file(), "manifest-tool.yaml");
}

#[test]
fn temporary_cache_files() {
    assert!(is_temporary_cache_file("download.part"));
    assert!(is_temporary_cache_file("lock"));
    assert!(!is_temporary_cache_file("model.safetensors"));
    assert!(!is_temporary_cache_file("pytorch_model.bin"));
}

#[test]
fn load_payload_matching() {
    let p = LoadPayload { model_id: "QWEN-7B".to_string() };
    assert!(p.matches_model("qwen:7b", "other.gguf", "Other"));
    assert!(p.matches_model("x", "qwen-7b", "y"));
    assert!(p.matches_model("x", "y", "Qwen-7B"));
    assert!(!p.matches_model("qwen:8b", "qwen.gguf", "Qwen"));
}

#[test]
fn cache_folder_sizes() {
    let files = vec![
        ("model.safetensors".to_string(), 1000u64),
        ("download.part".to_string(), 30u64),
        ("weights.bin".to_string(), 500u64),
        ("index.lock".to_string(), 7u64),
    ];
    assert_eq!(cache_sizes(&files), (37, 1537));
    assert_eq!(cache_sizes(&Vec::new()), (0, 0));
}
