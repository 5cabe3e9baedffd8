use cluaiz::discovery::probe::{
    find_header_reasoning_tags, merge_sidecar_json, merge_sidecar_text, probe_gguf_header, probe_onnx_names, BinaryProbeResult,
};

fn meta(pairs: &[(&str, &str)]) -> Vec<(String, String)> {
    pairs.iter().map(|(k, v)| (k.to_string(), v.to_string())).collect()
}

fn tensors(ts: &[(&str, &[u64])]) -> Vec<(String, Vec<u64>)> {
    ts.iter().map(|(n, d)| (n.to_string(), d.to_vec())).collect()
}

#[test]
fn blank_probe_and_reasoning_tags() {
    let r = BinaryProbeResult::unknown();
    assert_eq!(r.architecture, "Unknown");
    assert_eq!(r.context_window, "Unknown");
    assert_eq!(r.parameters_str, "Unknown");
    assert!(r.quantization.is_none() && r.explicit_tasks.is_empty() && !r.has_pooling);
    assert_eq!(find_header_reasoning_tags("{% if thinking %}<think>{% endif %}"), (None, None));
}

#[test]
fn gguf_header_of_a_chat_model() {
    let m = meta(&[
        ("general.architecture", "llama"),
        ("llama.context_length", "8192"),
        ("general.file_type", "15"),
        ("tokenizer.chat_template", "{% for m in messages %}{{ m.content }}{% endfor %}"),
    ]);
    let t = tensors(&[("blk.0.attn_q.weight", &[4, 8]), ("output.weight", &[8, 2])]);
    let (r, count) = probe_gguf_header(&m, &t, "models/llama-q4_k_m.gguf");
    assert_eq!(count, 48);
    assert_eq!(r.architecture, "llama");
    assert_eq!(r.context_window, "8K");
    assert_eq!(r.parameters_str, "Unknown");
    assert_eq!(r.quantization.as_deref(), Some("MOSTLY_Q4_K_M"));
    assert_eq!(r.bit_depth.as_deref(), Some("4-bit"));
    assert!(r.chat_template.is_some());
    assert!(!r.has_pooling && !r.has_vision_keys && !r.has_vision_tensors);
    assert!(!r.has_audio_keys && !r.has_audio_tensors);
    assert!(r.explicit_tasks.is_empty());
}

#[test]
fn gguf_header_of_a_speech_model() {
    let m = meta(&[
        ("general.architecture", "whisper"),
        ("general.parameter_count", "1000"),
        ("general.pipeline_tag", "automatic-speech-recognition"),
        ("whisper.encoder.layers", "4"),
    ]);
    let t = tensors(&[("mel_filters", &[80, 201])]);
    let (r, count) = probe_gguf_header(&m, &t, "ggml-base.gguf");
    assert_eq!(count, 1000);
    assert_eq!(r.context_window, "30s (3000 frames)");
    assert_eq!(r.quantization, None);
    assert_eq!(r.bit_depth.as_deref(), Some("4-bit"));
    assert!(r.has_audio_keys && r.has_audio_tensors);
    assert_eq!(r.explicit_tasks, vec!["automatic-speech-recognition".to_string()]);
}

#[test]
fn gguf_header_small_context_pooling_and_vision() {
    let m = meta(&[
        ("general.architecture", "bert"),
        ("bert.context_length", "512"),
        ("general.pooling_type", "1"),
        ("general.file_type", "1"),
        ("clip.vision.image_size", "224"),
    ]);
    let (r, count) = probe_gguf_header(&m, &Vec::new(), "bge-small-f16.gguf");
    assert_eq!(count, 0);
    assert_eq!(r.context_window, "512");
    assert!(r.has_pooling && r.has_vision_keys);
    assert_eq!(r.quantization.as_deref(), Some("MOSTLY_F16"));
    assert_eq!(r.bit_depth.as_deref(), Some("16-bit"));
    let none = probe_gguf_header(&Vec::new(), &Vec::new(), "x.gguf").0;
    assert_eq!(none.architecture, "Unknown");
    assert_eq!(none.context_window, "Unknown");
}

#[test]
fn onnx_names_decide_family_and_precision() {
    let bge = probe_onnx_names("models/bge-small/model_int8.onnx", Some("512".to_string()));
    assert_eq!(bge.architecture, "embedding_encoder");
    assert_eq!(bge.context_window, "512");
    assert_eq!(bge.quantization.as_deref(), Some("INT8"));
    assert_eq!(bge.bit_depth.as_deref(), Some("8-bit"));
    assert!(bge.has_pooling);

    let whisper = probe_onnx_names("whisper-tiny/encoder_model_q4.onnx", Some("1K".to_string()));
    assert_eq!(whisper.architecture, "whisper");
    assert_eq!(whisper.context_window, "30s (3000 frames)");
    assert_eq!(whisper.quantization.as_deref(), Some("INT4 / Q4_K"));
    assert!(whisper.has_audio_keys && whisper.has_audio_tensors);

    let clip = probe_onnx_names("clip-vit/vision_fp16.onnx", None);
    assert_eq!(clip.architecture, "clip");
    assert_eq!(clip.context_window, "Unknown");
    assert_eq!(clip.bit_depth.as_deref(), Some("16-bit"));
    assert!(clip.has_vision_keys && clip.has_vision_tensors);

    let other = probe_onnx_names("phi3/model.onnx", None);
    assert_eq!(other.architecture, "phi3");
    assert_eq!(other.quantization.as_deref(), Some("FP32"));
    let bare = probe_onnx_names("decoder.onnx", None);
    assert_eq!(bare.architecture, "decoder");
}

#[test]
fn sidecar_json_merges_tasks_once() {
    let mut r = BinaryProbeResult::unknown();
    r.explicit_tasks = vec!["chat".to_string()];
    merge_sidecar_json(
        &mut r,
        &vec!["chat".to_string(), "vision".to_string(), "vision".to_string()],
        Some("ocr".to_string()),
        Some("Qwen2_VL_ForConditionalGeneration".to_string()),
    );
    assert_eq!(r.explicit_tasks, vec!["chat".to_string(), "vision".to_string(), "ocr".to_string()]);
    assert!(r.has_vision_keys);
    let mut plain = BinaryProbeResult::unknown();
    merge_sidecar_json(&mut plain, &Vec::new(), None, Some("LlamaForCausalLM".to_string()));
    assert!(!plain.has_vision_keys && plain.explicit_tasks.is_empty());
}

#[test]
fn sidecar_text_merges_declared_tasks() {
    let mut r = BinaryProbeResult::unknown();
    merge_sidecar_text(
        &mut r,
        r#"{"tasks": ["x"], "supported_tasks": ["chat", 2, "vision"], "pipeline_tag": "ocr", "architectures": ["Qwen2_VL_ForConditionalGeneration"]}"#,
    );
    assert_eq!(r.explicit_tasks, vec!["chat".to_string(), "vision".to_string(), "ocr".to_string()]);
    assert!(r.has_vision_keys);
    let mut plain = BinaryProbeResult::unknown();
    merge_sidecar_text(&mut plain, "not json");
    assert!(!plain.has_vision_keys && plain.explicit_tasks.is_empty());
}
