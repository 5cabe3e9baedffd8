use cluaiz::fetch::asset_bundler::AssetBundler;
use cluaiz::fetch::tts_resolver::TtsAssetResolver;
use cluaiz::listing::{DirEntry, DirListing};
use cluaiz::taxonomy::quantization::UniversalQuantization;
use cluaiz::taxonomy::stt_families::{SttFamily, SttTaxonomy};

fn stt_listing(names: &[&str], has_am_mvn: bool) -> DirListing {
    DirListing {
        entries: names.iter().map(|n| DirEntry { name: n.to_string(), size: 1 }).collect(),
        voices: Vec::new(),
        has_tokens_txt: false,
        has_lexicon_txt: false,
        has_model_onnx_data: false,
        has_am_mvn,
    }
}

#[test]
fn bundler_metadata_files_and_scores() {
    let files = AssetBundler::supplementary_metadata_files();
    assert_eq!(files.len(), 20);
    assert_eq!(files[0], "config.json");
    assert_eq!(files[19], "cluaiz-engine.ready");
    assert_eq!(AssetBundler::score_model_file_priority("tts", "model.onnx"), 0);
    assert_eq!(AssetBundler::score_model_file_priority("tts", "hifigan.onnx"), 2);
    assert_eq!(AssetBundler::score_model_file_priority("audio", "speaker_encoder.onnx"), 1);
    assert_eq!(AssetBundler::score_model_file_priority("stt", "encoder_model.onnx"), 0);
    assert_eq!(AssetBundler::score_model_file_priority("stt", "silero_vad.onnx"), 2);
    assert_eq!(AssetBundler::score_model_file_priority("chat", "x.gguf"), 1);
}

#[test]
fn bundler_weight_and_helper_kinds() {
    assert!(AssetBundler::is_pytorch_weights("model.safetensors"));
    assert!(AssetBundler::is_pytorch_weights("pytorch_model.bin"));
    assert!(AssetBundler::is_pytorch_weights("MODEL.PT"));
    assert!(!AssetBundler::is_pytorch_weights("speaker_embeddings.bin"));
    assert!(!AssetBundler::is_pytorch_weights("voices/af.bin"));
    assert!(!AssetBundler::is_pytorch_weights("model.onnx"));

    assert!(AssetBundler::is_mtp_gguf("mtp-q8_0.gguf"));
    assert!(AssetBundler::is_mtp_gguf("model-mtp-f16.gguf"));
    assert!(AssetBundler::is_mtp_gguf("sub/MTP/x.gguf"));
    assert!(!AssetBundler::is_mtp_gguf("model.gguf"));
    assert!(AssetBundler::is_mmproj_gguf("mmproj-model-f16.gguf"));
    assert!(AssetBundler::is_mmproj_gguf("Qwen2-VL_mmproj-f16.gguf"));
    assert!(AssetBundler::is_projector_gguf("projector-x.gguf"));
    assert!(AssetBundler::is_adapter_gguf("lora_adapter-x.gguf"));
    assert!(AssetBundler::is_helper_gguf("mmproj-f16.gguf"));
    assert!(!AssetBundler::is_helper_gguf("qwen-7b-q4_k_m.gguf"));
    assert_eq!(AssetBundler::basename_of("Dir/Model-Q4.GGUF"), "model-q4.gguf");
}

#[test]
fn bundler_selects_companions() {
    let mm = ["mmproj-f32.gguf", "mmproj-bf16.gguf", "mmproj-f16.gguf"];
    assert_eq!(AssetBundler::select_best_mmproj(&mm), Some("mmproj-f16.gguf"));
    assert_eq!(AssetBundler::select_best_mmproj(&["mmproj-model-bf16.gguf", "mmproj-model-f16.gguf"]), Some("mmproj-model-f16.gguf"));
    assert_eq!(AssetBundler::select_best_mmproj(&["mmproj-model-f32.gguf", "mmproj-model-bf16.gguf"]), Some("mmproj-model-bf16.gguf"));
    assert_eq!(AssetBundler::select_best_mmproj(&["mmproj-q8.gguf", "mmproj-q4.gguf"]), Some("mmproj-q8.gguf"));
    assert_eq!(AssetBundler::select_best_mmproj(&[]), None);
    let mtp = ["mtp-q4_k_m.gguf", "mtp-q8_0.gguf", "mtp-f16.gguf"];
    assert_eq!(AssetBundler::select_best_mtp(&mtp, "Q8_0"), Some("mtp-q8_0.gguf"));
    assert_eq!(AssetBundler::select_best_mtp(&mtp, "Q4_K_M"), Some("mtp-q4_k_m.gguf"));
    assert_eq!(AssetBundler::select_best_mtp(&[], "Q4_K_M"), None);
}

#[test]
fn bundler_metadata_compatibility_and_duplicates() {
    assert!(AssetBundler::is_compatible_subfolder_metadata("config.json", "q4/model.onnx"));
    assert!(AssetBundler::is_compatible_subfolder_metadata("q4/config.json", "q4/model_q4.onnx"));
    assert!(!AssetBundler::is_compatible_subfolder_metadata("fp16/config.json", "q4/model.onnx"));
    assert!(AssetBundler::is_compatible_subfolder_metadata("voices/af.bin", "x.onnx"));
    assert!(!AssetBundler::is_compatible_subfolder_metadata("onnx/readme.md", "x.onnx"));

    let mut files = vec![
        "config.json".to_string(),
        "q4/config.json".to_string(),
        "tokenizer.json".to_string(),
        "model.onnx".to_string(),
    ];
    AssetBundler::filter_duplicate_metadata_files(&mut files);
    assert_eq!(files, vec!["q4/config.json".to_string(), "tokenizer.json".to_string(), "model.onnx".to_string()]);
}

#[test]
fn tts_asset_rules() {
    assert!(TtsAssetResolver::is_tts_asset("voices/af.bin"));
    assert!(TtsAssetResolver::is_tts_asset("model.onnx.json"));
    assert!(TtsAssetResolver::is_tts_asset("espeak-ng-data/phontab"));
    assert!(!TtsAssetResolver::is_tts_asset("model.onnx"));
    assert_eq!(TtsAssetResolver::strip_quant("onnx/model_q4.onnx"), "model");
    assert_eq!(TtsAssetResolver::strip_quant("Model_FP16.onnx"), "model");
    assert_eq!(TtsAssetResolver::strip_quant("kokoro.onnx"), "kokoro");
    assert!(TtsAssetResolver::is_same_model_different_quant("onnx/model_q4.onnx", "onnx/model_fp16.onnx"));
    assert!(!TtsAssetResolver::is_same_model_different_quant("onnx/model.onnx", "onnx/model.onnx"));
    assert!(!TtsAssetResolver::is_same_model_different_quant("a/model_q4.onnx", "b/model.onnx"));
    assert!(TtsAssetResolver::is_scale_mismatch("base/model.onnx", "large/model.onnx"));
    assert!(!TtsAssetResolver::is_scale_mismatch("base/a.onnx", "base/b.onnx"));
    assert!(!TtsAssetResolver::is_scale_mismatch("model.onnx", "large/model.onnx"));
    assert!(TtsAssetResolver::is_subcomponent_file("onnx/vocoder_adapter.onnx"));
    assert!(!TtsAssetResolver::is_subcomponent_file("model.onnx"));
    assert!(TtsAssetResolver::is_primary_entrypoint("model.onnx"));
    assert!(!TtsAssetResolver::is_primary_entrypoint("hifigan.onnx"));
    assert!(TtsAssetResolver::is_primary_entrypoint("kokoro_denoiser.onnx"));
}

#[test]
fn quantization_helpers() {
    assert_eq!(UniversalQuantization::strip_quant("model-q4.onnx"), "model");
    assert_eq!(UniversalQuantization::extract_shard_base("Model-00001-of-00003.gguf"), Some("model".to_string()));
    assert_eq!(UniversalQuantization::extract_shard_base("dir/x.part1of3"), Some("dir/x".to_string()));
    assert_eq!(UniversalQuantization::extract_shard_base("model.gguf"), None);
    assert_eq!(
        UniversalQuantization::extract_shard_base("Qwen-7B-Q4_K_M-00001-of-00003.gguf"),
        Some("qwen-7b-q4_k_m".to_string())
    );
    assert_eq!(
        UniversalQuantization::extract_shard_base("Qwen-7B-Q4_K_M-00002-of-00003.gguf"),
        Some("qwen-7b-q4_k_m".to_string())
    );
    assert_eq!(UniversalQuantization::strip_onnx_companion_suffix("model.onnx.data"), "model");
    assert_eq!(UniversalQuantization::strip_onnx_companion_suffix("Model.ONNX"), "Model");
    assert_eq!(UniversalQuantization::strip_onnx_companion_suffix("x.bin"), "x.bin");
    for suffix in [".onnx", ".onnx.data", ".onnx_data"] {
        let name = format!("Kokoro-V1{}", suffix);
        assert_eq!(UniversalQuantization::strip_onnx_companion_suffix(&name), "Kokoro-V1");
        let other = format!("Ünïcode-ΑΣ{}", suffix);
        assert_eq!(UniversalQuantization::strip_onnx_companion_suffix(&other), "Ünïcode-ΑΣ");
    }
    assert!(UniversalQuantization::is_onnx_companion_file("model.onnx_data"));
    assert!(!UniversalQuantization::is_onnx_companion_file("model.onnx"));
    assert!(UniversalQuantization::is_quant_token("q4_k_m"));
    assert!(UniversalQuantization::is_quant_token("gguf"));
    assert!(UniversalQuantization::is_quant_token("Q3"));
    assert!(!UniversalQuantization::is_quant_token("llama"));
    assert!(!UniversalQuantization::is_quant_token(""));
    assert_eq!(UniversalQuantization::quant_tier_of("Q8_0"), 6);
    assert_eq!(UniversalQuantization::quant_tier_of("bf16"), 7);
    assert_eq!(UniversalQuantization::quant_tier_of("fp32"), 8);
    assert_eq!(UniversalQuantization::quant_tier_of("IQ2_XS"), 1);
    assert_eq!(UniversalQuantization::quant_tier_of("none"), 0);
    assert_eq!(UniversalQuantization::resolve_format_type("a.ONNX"), "onnx");
    assert_eq!(UniversalQuantization::resolve_format_type("a.gguf"), "gguf");
    assert_eq!(UniversalQuantization::resolve_format_type("a.bin"), "gguf");
    assert!(UniversalQuantization::is_executable_weight_file("x.GGUF"));
    assert!(!UniversalQuantization::is_executable_weight_file("x.bin"));
}

#[test]
fn stt_taxonomy_rules() {
    assert!(SttTaxonomy::is_stt_asset("am.mvn"));
    assert!(SttTaxonomy::is_stt_asset("silero_vad.onnx"));
    assert!(!SttTaxonomy::is_stt_asset("model.onnx"));
    assert_eq!(SttTaxonomy::strip_quant("encoder_int8.onnx"), "encoder");
    assert!(SttTaxonomy::is_subcomponent_file("decoder_model.onnx"));
    assert!(!SttTaxonomy::is_subcomponent_file("encoder.onnx"));
    assert!(SttTaxonomy::is_primary_entrypoint("ggml-base.bin"));
    assert!(!SttTaxonomy::is_primary_entrypoint("model.onnx.data"));
    assert!(SttTaxonomy::is_primary_entrypoint("encoder_model.onnx"));
    assert!(!SttTaxonomy::is_primary_entrypoint("joiner.onnx"));
    assert!(!SttTaxonomy::is_primary_entrypoint("vocab.json"));

    assert_eq!(SttTaxonomy::detect_family("openai/whisper-base", "ggml-base.bin"), SttFamily::WhisperGguf);
    assert_eq!(SttTaxonomy::detect_family("whisper-tiny", "encoder_model.onnx"), SttFamily::WhisperOnnx);
    assert_eq!(SttTaxonomy::detect_family("sensevoice-small", ""), SttFamily::SenseVoice);
    assert_eq!(SttTaxonomy::detect_family("x", "model.onnx joiner.onnx"), SttFamily::Zipformer);
    assert_eq!(SttTaxonomy::detect_family("x", "encoder.onnx"), SttFamily::GenericOnnxStt);
    assert_eq!(SttTaxonomy::detect_family("nothing", ""), SttFamily::Unknown);
    assert_eq!(SttFamily::WhisperOnnx.as_str(), "whisper-onnx");
}

#[test]
fn stt_package_contracts() {
    let graphs = stt_listing(&["encoder_model.onnx", "decoder_model.onnx"], false);
    assert_eq!(
        SttTaxonomy::validate_family_contract(SttFamily::WhisperOnnx, &graphs),
        Err("Whisper ONNX Contract Violation: Missing tokenizer.json / vocab.json metadata.".to_string())
    );
    let full = stt_listing(&["encoder_model.onnx", "decoder_model.onnx", "tokenizer.json"], false);
    assert_eq!(SttTaxonomy::validate_family_contract(SttFamily::WhisperOnnx, &full), Ok(()));
    let sv = stt_listing(&["model.onnx"], false);
    assert_eq!(
        SttTaxonomy::validate_family_contract(SttFamily::SenseVoice, &sv),
        Err("SenseVoice Contract Violation: Missing mandatory am.mvn acoustic normalization vector.".to_string())
    );
    let sv_ok = stt_listing(&["model.onnx"], true);
    assert_eq!(SttTaxonomy::validate_family_contract(SttFamily::SenseVoice, &sv_ok), Ok(()));
    let gguf = stt_listing(&["readme.md"], false);
    assert_eq!(
        SttTaxonomy::validate_family_contract(SttFamily::WhisperGguf, &gguf),
        Err("Whisper GGUF Contract Violation: Missing core ggml-*.bin or *.gguf weight binary.".to_string())
    );
}

#[test]
fn duplicate_metadata_filter_is_stable() {
    let mut files = vec![
        "tokenizer.json".to_string(),
        "onnx/tokenizer.json".to_string(),
        "Config.json".to_string(),
        "fp16/config.JSON".to_string(),
        "model.onnx".to_string(),
    ];
    AssetBundler::filter_duplicate_metadata_files(&mut files);
    let once = files.clone();
    assert_eq!(once, vec!["onnx/tokenizer.json".to_string(), "fp16/config.JSON".to_string(), "model.onnx".to_string()]);
    AssetBundler::filter_duplicate_metadata_files(&mut files);
    assert_eq!(files, once);
}
