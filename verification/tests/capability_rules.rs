use cluaiz::discovery::capabilities::{ModelCapabilities, SlotType};
use cluaiz::discovery::rules::{
    evaluate_audio_rules, evaluate_chat_rules, evaluate_embedding_rules, evaluate_vision_rules, get_audio_tasks,
    get_chat_tasks, get_embedding_tasks, get_vision_tasks,
};

fn strs(v: &[String]) -> Vec<&str> {
    v.iter().map(|s| s.as_str()).collect()
}

fn with_tasks(tasks: &[&str]) -> ModelCapabilities {
    let mut c = ModelCapabilities::default();
    c.explicit_tasks = tasks.iter().map(|t| t.to_string()).collect();
    c
}

#[test]
fn chat_rules_and_tasks() {
    let mut c = ModelCapabilities::default();
    evaluate_chat_rules("qwen2-instruct", false, &mut c);
    assert!(c.is_instruct && !c.is_base && !c.has_file);
    assert_eq!(strs(&get_chat_tasks(&c)), vec!["chat-completion"]);

    let mut base = ModelCapabilities::default();
    evaluate_chat_rules("llama", false, &mut base);
    assert!(base.is_base && !base.is_instruct);
    assert_eq!(strs(&get_chat_tasks(&base)), vec!["text-generation"]);

    let mut coder = ModelCapabilities::default();
    evaluate_chat_rules("starcoder2", true, &mut coder);
    assert!(coder.is_instruct && coder.has_file);
    coder.has_vision = true;
    coder.has_audio = true;
    assert_eq!(
        strs(&get_chat_tasks(&coder)),
        vec!["chat-completion", "multimodal-vision", "multimodal-file", "multimodal-audio"]
    );

    let none = ModelCapabilities::default();
    assert_eq!(strs(&get_chat_tasks(&none)), vec!["chat-completion"]);
}

#[test]
fn embedding_rules_and_tasks() {
    let mut c = ModelCapabilities::default();
    evaluate_embedding_rules("llama", false, &mut c);
    assert!(!c.is_embedding);
    evaluate_embedding_rules("nomic-bert", false, &mut c);
    assert!(c.is_embedding && c.is_feature_extraction);
    assert_eq!(strs(&get_embedding_tasks(&c)), vec!["embedding", "feature-extraction"]);

    let mut pooled = ModelCapabilities::default();
    evaluate_embedding_rules("custom", true, &mut pooled);
    assert!(pooled.is_embedding);

    let mut declared = with_tasks(&["feature-extraction"]);
    evaluate_embedding_rules("custom", false, &mut declared);
    assert!(declared.is_embedding);
    declared.has_vision = true;
    declared.has_audio = true;
    assert_eq!(
        strs(&get_embedding_tasks(&declared)),
        vec!["embedding", "feature-extraction", "vision-embedding", "audio-embedding"]
    );
    assert_eq!(strs(&get_embedding_tasks(&ModelCapabilities::default())), vec!["embedding"]);
}

#[test]
fn vision_rules_and_tasks() {
    let mut c = ModelCapabilities::default();
    c.is_instruct = true;
    evaluate_vision_rules("llava", true, false, &mut c);
    assert!(c.has_vision && c.is_vision_chat);
    assert_eq!(strs(&get_vision_tasks(&c)), vec!["multimodal-dialogue"]);

    let mut encoder = ModelCapabilities::default();
    evaluate_vision_rules("clip", false, true, &mut encoder);
    assert!(encoder.has_vision && !encoder.is_vision_chat);
    assert_eq!(strs(&get_vision_tasks(&encoder)), vec!["vision-feature-extraction"]);

    let mut untouched = ModelCapabilities::default();
    evaluate_vision_rules("clip", false, false, &mut untouched);
    assert!(!untouched.has_vision);
    assert!(get_vision_tasks(&untouched).is_empty());

    let declared = with_tasks(&["VQA", "image-captioning", "Custom_Task"]);
    assert_eq!(
        strs(&get_vision_tasks(&declared)),
        vec!["visual-question-answering", "image-to-text", "custom-task"]
    );

    let mut gen = ModelCapabilities::default();
    gen.is_image_gen = true;
    gen.has_video = true;
    assert_eq!(strs(&get_vision_tasks(&gen)), vec!["text-to-image", "text-to-video"]);
}

#[test]
fn audio_rules_and_tasks() {
    let mut whisper = ModelCapabilities::default();
    evaluate_audio_rules("whisper-small", true, false, &mut whisper);
    assert!(whisper.has_audio && whisper.is_asr && !whisper.is_tts);
    assert_eq!(whisper.tts_family.as_deref(), Some("whisper"));
    assert_eq!(strs(&get_audio_tasks(&whisper)), vec!["speech_to_text"]);

    let mut kokoro = ModelCapabilities::default();
    evaluate_audio_rules("kokoro-82m", false, true, &mut kokoro);
    assert!(kokoro.is_tts && !kokoro.is_asr);
    assert_eq!(kokoro.tts_family.as_deref(), Some("kokoro"));
    assert_eq!(strs(&get_audio_tasks(&kokoro)), vec!["text_to_speech"]);

    let mut declared = with_tasks(&["voice_conversion"]);
    evaluate_audio_rules("rvc", false, false, &mut declared);
    assert!(declared.is_audio_to_audio && !declared.is_tts && !declared.is_asr);
    assert_eq!(declared.tts_family, None);
    assert_eq!(strs(&get_audio_tasks(&declared)), vec!["voice_conversion"]);

    let mut silent = ModelCapabilities::default();
    evaluate_audio_rules("whisper", false, false, &mut silent);
    assert!(!silent.has_audio && !silent.is_asr);
    assert_eq!(silent.tts_family, None);
    assert_eq!(strs(&get_audio_tasks(&silent)), vec!["speech_to_text"]);

    let aliases = with_tasks(&["ASR", "tts", "speaker-id", "Whatever"]);
    assert_eq!(
        strs(&get_audio_tasks(&aliases)),
        vec!["speech_to_text", "text_to_speech", "speaker_identification", "whatever"]
    );

    let mut piper = ModelCapabilities::default();
    evaluate_audio_rules("piper-vits", true, false, &mut piper);
    assert_eq!(piper.tts_family.as_deref(), Some("vits_piper"));
}

#[test]
fn slot_tasks_by_category() {
    assert_eq!(SlotType::from_category("Text_Generation"), SlotType::Chat);
    assert_eq!(SlotType::from_category("OCR"), SlotType::Ingest);
    assert_eq!(SlotType::from_category("vision-embedding"), SlotType::Embedding);
    assert_eq!(SlotType::from_category("audio"), SlotType::Tts);
    assert_eq!(SlotType::from_category("ASR"), SlotType::Stt);
    assert_eq!(SlotType::from_category("unknown"), SlotType::Chat);
    assert_eq!(SlotType::Tts.as_str(), "tts");
    for slot in [SlotType::Chat, SlotType::Ingest, SlotType::Embedding, SlotType::Tts, SlotType::Stt] {
        assert_eq!(SlotType::from_category(slot.as_str()), slot);
    }
    assert_eq!(
        strs(&SlotType::get_tasks_for_category("chat")),
        vec![
            "chat-completion",
            "image-text-to-text",
            "image-to-text",
            "visual-question-answering",
            "video-text-to-text",
            "audio-text-to-text"
        ]
    );
    assert_eq!(strs(&SlotType::get_tasks_for_category("stt")), vec!["automatic-speech-recognition", "audio-classification"]);
    let plain = ModelCapabilities::default();
    assert_eq!(strs(&SlotType::Chat.supported_tasks(&plain)), vec!["chat-completion"]);
    let all = ModelCapabilities::all_true();
    assert!(all.has_vision && all.is_tts && all.chat_completion);
    assert_eq!(strs(&SlotType::Tts.supported_tasks(&all)), vec!["text-to-speech", "voice-synthesis"]);
}
