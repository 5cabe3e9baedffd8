use cluaiz::chat::{ContentPart, ExternalMessage, MediaUrlContent, MessageContent, TemporaryChatMode};
use cluaiz::serving::audio_flow::{
    audio_output, audio_prompt, check_modality, classify_audio_input, default_audio_model, entry_by_key,
    find_model_by_name, is_explicit_model, is_retryable_failure, onnx_candidates, requested_task, resolve_task,
    split_done_marker, target_task, AudioModelEntry, AudioOutcome, ModalityError, ModelFileRef,
    next_audio_attempt, plan_audio, AudioRefusal,
};
use cluaiz::serving::chat_flow::{
    chat_target_slot, checked_max_tokens, choose_chat_model, dynamic_context_limit, has_image, inject_constraint,
    inject_skill, is_unload_only_request, keep_alive_action, parse_tool_trigger, pivot_prompt, skips_memory,
    trigger_is_in_order, ChatRequestError, ChatTurn, KeepAlive,
    check_max_tokens, clamp_max_tokens, chat_stream_step, StreamAction, StreamEvent, CHAT_STREAM_PASSES,
};
use cluaiz::serving::components::{
    component_folder, component_kind, component_settings, settings_file_name, settings_update,
    settings_update_is_complete, settings_yaml,
};
use cluaiz::serving::embedding_flow::{choose_embedding_model, count_words, total_word_count};

fn turn(role: &str, content: &str) -> ChatTurn {
    ChatTurn { role: role.to_string(), content: content.to_string() }
}

fn pairs(turns: &[ChatTurn]) -> Vec<(String, String)> {
    turns.iter().map(|t| (t.role.clone(), t.content.clone())).collect()
}

#[test]
fn keep_alive_minutes_map_to_actions() {
    assert_eq!(keep_alive_action(Some(0)), KeepAlive::UnloadNow);
    assert_eq!(keep_alive_action(Some(5)), KeepAlive::UnloadAfterSecs(300));
    assert_eq!(keep_alive_action(Some(-1)), KeepAlive::Retain);
    assert_eq!(keep_alive_action(None), KeepAlive::Retain);
}

#[test]
fn context_limit_has_a_floor() {
    assert_eq!(dynamic_context_limit(Some("8192")), 8192);
    assert_eq!(dynamic_context_limit(Some("+4096")), 4096);
    assert_eq!(dynamic_context_limit(Some("1024")), 2048);
    assert_eq!(dynamic_context_limit(Some("8k")), 2048);
    assert_eq!(dynamic_context_limit(None), 2048);
}

#[test]
fn max_tokens_zero_is_refused_and_large_values_are_clamped() {
    assert_eq!(checked_max_tokens(Some(0), 4096), Err(ChatRequestError::MaxTokensOutOfRange));
    assert_eq!(checked_max_tokens(Some(10000), 4096), Ok(Some(4096)));
    assert_eq!(checked_max_tokens(Some(100), 4096), Ok(Some(100)));
    assert_eq!(checked_max_tokens(None, 4096), Ok(None));
    assert_eq!(ChatRequestError::MaxTokensOutOfRange.code(), "parameter_out_of_range");
    assert_eq!(ChatRequestError::ModelNotFound.code(), "model_not_found");
}

#[test]
fn unload_only_requests() {
    assert!(is_unload_only_request("", Some(0)));
    assert!(!is_unload_only_request("hi", Some(0)));
    assert!(!is_unload_only_request("", None));
    assert!(!is_unload_only_request("", Some(3)));
}

#[test]
fn slot_and_memory_choice() {
    assert_eq!(chat_target_slot(true, true), "vision_slot");
    assert_eq!(chat_target_slot(true, false), "chat_slot");
    assert_eq!(chat_target_slot(false, true), "chat_slot");
    assert!(skips_memory(Some(TemporaryChatMode::Strict)));
    assert!(!skips_memory(Some(TemporaryChatMode::Lite)));
    assert!(!skips_memory(None));
}

#[test]
fn chat_model_override_and_fallback() {
    let r = choose_chat_model(Some("llama"), Some("/m/llama.gguf".to_string()), Some("/m/default.gguf".to_string()));
    assert_eq!(r, Some(("/m/llama.gguf".to_string(), "llama".to_string())));
    let r = choose_chat_model(Some("   "), Some("/m/x.gguf".to_string()), Some("/m/default.gguf".to_string()));
    assert_eq!(r, Some(("/m/default.gguf".to_string(), "default-system-model".to_string())));
    let r = choose_chat_model(Some("missing"), None, Some("/m/default.gguf".to_string()));
    assert_eq!(r, Some(("/m/default.gguf".to_string(), "default-system-model".to_string())));
    assert_eq!(choose_chat_model(Some("x"), None, None), None);
}

#[test]
fn constraint_goes_into_the_system_message() {
    let mut t = vec![turn("user", "hi")];
    inject_constraint(&mut t, "Be brief.");
    assert_eq!(pairs(&t), vec![("system".to_string(), "Be brief.".to_string()), ("user".to_string(), "hi".to_string())]);

    let mut t = vec![turn("user", "a"), turn("System", "You are X"), turn("system", "second")];
    inject_constraint(&mut t, "Be brief.");
    assert_eq!(t[1].content, "You are X\n\nBe brief.");
    assert_eq!(t[2].content, "second");
    assert_eq!(t.len(), 3);

    let mut t = vec![turn("user", "a")];
    inject_constraint(&mut t, "");
    assert_eq!(pairs(&t), vec![("user".to_string(), "a".to_string())]);
}

#[test]
fn skill_body_goes_before_the_last_message() {
    let mut t = vec![turn("system", "s"), turn("user", "question")];
    inject_skill(&mut t, "SKILL");
    assert_eq!(t[1].content, "SKILL\n\nquestion");
    assert_eq!(t[0].content, "s");
    let mut empty: Vec<ChatTurn> = Vec::new();
    inject_skill(&mut empty, "SKILL");
    assert!(empty.is_empty());
}

#[test]
fn image_parts_are_detected() {
    let text = ExternalMessage { role: "user".to_string(), content: MessageContent::Text("look".to_string()) };
    let image = ExternalMessage {
        role: "user".to_string(),
        content: MessageContent::Array(vec![
            ContentPart::Text { text: "see".to_string() },
            ContentPart::ImageUrl { image_url: MediaUrlContent { url: "http://x/cat.png".to_string() } },
        ]),
    };
    assert!(!has_image(&vec![text]));
    let text2 = ExternalMessage { role: "user".to_string(), content: MessageContent::Text("look".to_string()) };
    assert!(has_image(&vec![text2, image]));
}

#[test]
fn tool_triggers_are_parsed() {
    let t = parse_tool_trigger("<TRIGGER:extension:weather>{\"city\":\"Paris\"}</TRIGGER>").unwrap();
    assert_eq!((t.kind.as_str(), t.name.as_str(), t.payload.as_str()), ("extension", "weather", "{\"city\":\"Paris\"}"));

    let t = parse_tool_trigger("<TRIGGER:skill:a><TRIGGER:plugin:calc> 1+1 </TRIGGER>").unwrap();
    assert_eq!((t.kind.as_str(), t.name.as_str(), t.payload.as_str()), ("plugin", "calc", "1+1"));

    let t = parse_tool_trigger("<TRIGGER:search>q</TRIGGER>").unwrap();
    assert_eq!((t.kind.as_str(), t.name.as_str(), t.payload.as_str()), ("extension", "search", "q"));

    let t = parse_tool_trigger("<TRIGGER:a:b:c>x</TRIGGER>").unwrap();
    assert_eq!((t.kind.as_str(), t.name.as_str()), ("a", "b"));

    assert!(parse_tool_trigger("hello world").is_none());
    assert!(parse_tool_trigger("<TRIGGER:a:b> no close").is_none());
    assert!(!trigger_is_in_order("<TRIGGER:a:b</TRIGGER>"));
    assert!(trigger_is_in_order("<TRIGGER:a:b>x</TRIGGER>"));
    assert!(trigger_is_in_order("plain"));
}

#[test]
fn pivot_prompt_carries_the_tool_result() {
    assert_eq!(
        pivot_prompt("plugin", "calc", "2"),
        "<result:plugin:calc>\n2\n</result>\nNow, provide the final conversational answer to the user based on the tool result above. Do NOT use any tools. Just answer the user directly.\n"
    );
}

fn entry(key: &str, format: &str, category: &str, tasks: &[&str]) -> AudioModelEntry {
    AudioModelEntry {
        key: key.to_string(),
        id: key.to_string(),
        format_type: format.to_string(),
        category: category.to_string(),
        supported_tasks: tasks.iter().map(|t| t.to_string()).collect(),
    }
}

fn installed() -> Vec<AudioModelEntry> {
    vec![
        entry("whisper-base", "ONNX", "audio", &["speech-to-text"]),
        entry("kokoro-v1", "onnx", "audio", &["text-to-speech"]),
        entry("Llama", "gguf", "chat", &["chat-completion"]),
    ]
}

#[test]
fn audio_inputs_are_classified() {
    assert_eq!(classify_audio_input("URL", "https://x/y"), (true, false));
    assert_eq!(classify_audio_input("text", "hello"), (false, true));
    assert_eq!(classify_audio_input("text", " clip.WAV "), (true, false));
    assert_eq!(classify_audio_input("text", "data:audio/wav;base64,AAA"), (true, false));
    assert_eq!(classify_audio_input("other", "abc"), (false, false));
}

#[test]
fn audio_tasks_are_resolved() {
    assert_eq!(requested_task(Some(" Text-To-Speech ")), "text_to_speech");
    assert_eq!(requested_task(None), "auto");
    assert_eq!(target_task("auto", true), "text_to_speech");
    assert_eq!(target_task("", false), "speech_to_text");
    assert_eq!(target_task("speech_translation", true), "speech_translation");
    assert!(is_explicit_model(Some("kokoro")));
    assert!(!is_explicit_model(Some("auto")));
    assert!(!is_explicit_model(Some("  ")));
    assert!(!is_explicit_model(None));
}

#[test]
fn audio_models_are_found_by_name() {
    let es = installed();
    assert_eq!(find_model_by_name(&es, "KOKORO-V1"), Some(1));
    assert_eq!(find_model_by_name(&es, "whisper"), Some(0));
    assert_eq!(find_model_by_name(&es, "llama"), Some(2));
    assert_eq!(find_model_by_name(&es, "missing"), None);
    assert_eq!(entry_by_key(&es, "Llama"), Some(2));
    assert_eq!(entry_by_key(&es, "llama"), None);
}

#[test]
fn default_audio_model_keeps_directions_apart() {
    let es = installed();
    assert_eq!(default_audio_model(&es, None, "speech_to_text"), "whisper-base");
    assert_eq!(default_audio_model(&es, None, "text_to_speech"), "kokoro-v1");
    assert_eq!(default_audio_model(&es, Some("kokoro-v1"), "speech_to_text"), "whisper-base");
    assert_eq!(default_audio_model(&es, Some("kokoro-v1"), "text_to_speech"), "kokoro-v1");
    assert_eq!(default_audio_model(&es, None, "music_generation"), "kokoro-v1");
    assert_eq!(default_audio_model(&es, None, "speaker_diarization"), "whisper-base");
    assert_eq!(default_audio_model(&Vec::new(), None, "speech_to_text"), "");
}

#[test]
fn audio_task_and_modality() {
    let tasks = vec!["speech-to-text".to_string()];
    assert_eq!(resolve_task("auto", "speech_to_text", &tasks), "speech_to_text");
    let other = vec!["Audio-Classification".to_string()];
    assert_eq!(resolve_task("auto", "speech_to_text", &other), "Audio-Classification");
    assert_eq!(resolve_task("speech_translation", "speech_to_text", &other), "speech_translation");
    assert_eq!(resolve_task("auto", "x", &Vec::new()), "x");
    assert_eq!(check_modality("text_to_speech", true, false), Err(ModalityError::AudioForSynthesis));
    assert_eq!(check_modality("speech_to_text", false, true), Err(ModalityError::TextForTranscription));
    assert_eq!(check_modality("speech_to_text", true, false), Ok(()));
    assert_eq!(check_modality("music_generation", false, true), Ok(()));
}

fn file(name: &str, primary: bool) -> ModelFileRef {
    ModelFileRef { name: name.to_string(), is_primary: primary }
}

#[test]
fn onnx_candidates_are_ordered() {
    let files = vec![
        file("speaker_encoder.onnx", false),
        file("flow_estimator.onnx", true),
        file("config.json", false),
        file("hift.onnx", false),
    ];
    assert_eq!(
        onnx_candidates("/models/cosy", &files, true),
        vec!["/models/cosy/flow_estimator.onnx", "/models/cosy/hift.onnx", "/models/cosy/speaker_encoder.onnx"]
    );
    assert_eq!(
        onnx_candidates("/models/cosy", &files, false),
        vec!["/models/cosy/flow_estimator.onnx", "/models/cosy/speaker_encoder.onnx", "/models/cosy/hift.onnx"]
    );
    assert_eq!(onnx_candidates("/m", &vec![file("model.bin", false)], false), vec!["/m/model.bin"]);
    assert!(onnx_candidates("/m", &Vec::new(), true).is_empty());
}

#[test]
fn audio_prompts_and_outputs() {
    assert_eq!(
        audio_prompt(true, "a.wav", None, None, None),
        "[AUDIO_INPUT: a.wav] [LANGUAGE: auto] [TRANSLATE_TO: ] Transcribe speech to text cleanly."
    );
    assert_eq!(
        audio_prompt(true, "a.wav", Some("en"), Some("fr"), Some("Translate.")),
        "[AUDIO_INPUT: a.wav] [LANGUAGE: en] [TRANSLATE_TO: fr] Translate."
    );
    assert_eq!(audio_prompt(false, "hello", Some("en"), None, None), "[TEXT_INPUT] hello");
    assert!(is_retryable_failure("Invalid rank for input"));
    assert!(is_retryable_failure("session failed"));
    assert!(!is_retryable_failure("timeout"));
    assert_eq!(split_done_marker("abc\n[DONE]\n"), ("abc".to_string(), true));
    assert_eq!(split_done_marker("abc"), ("abc".to_string(), false));
    assert_eq!(audio_output(AudioOutcome::Final("hi".to_string())), Ok("hi".to_string()));
    assert_eq!(
        audio_output(AudioOutcome::Final("Error: x".to_string())),
        Err("Execution failed to produce output.".to_string())
    );
    assert_eq!(audio_output(AudioOutcome::Collected("  text \n".to_string())), Ok("text".to_string()));
    assert_eq!(
        audio_output(AudioOutcome::Collected("  ".to_string())),
        Err("Error: Audio Kernel produced empty output.".to_string())
    );
    assert_eq!(audio_output(AudioOutcome::Collected(" Error: bad".to_string())), Err("Error: bad".to_string()));
    assert_eq!(audio_output(AudioOutcome::Failed("boom".to_string())), Err("boom".to_string()));
}

#[test]
fn embedding_usage_and_model_choice() {
    assert_eq!(count_words("  hello   world\tfoo "), 3);
    assert_eq!(count_words(""), 0);
    assert_eq!(total_word_count(&vec!["a b".to_string(), "c".to_string()]), 3);
    assert_eq!(
        choose_embedding_model(Some("e5"), Some("/p/e5".to_string()), Some("bge"), Some("/p/bge".to_string())),
        Some(("/p/e5".to_string(), "e5".to_string()))
    );
    assert_eq!(
        choose_embedding_model(None, None, Some("bge"), Some("/p/bge".to_string())),
        Some(("/p/bge".to_string(), "bge".to_string()))
    );
    assert_eq!(choose_embedding_model(None, None, Some(" "), Some("/p/bge".to_string())), None);
    assert_eq!(choose_embedding_model(Some("e5"), None, None, None), None);
}

#[test]
fn component_settings_locations() {
    assert_eq!(component_kind("skills"), "skill");
    assert_eq!(component_kind("plugin"), "plugin");
    assert_eq!(component_folder("skill"), "skills");
    assert_eq!(settings_file_name("skill"), "SKILL.md");
    assert_eq!(settings_file_name("plugin"), "manifest-plugin.yaml");
    assert_eq!(settings_yaml(true, "---\nname: a\n---\nbody"), "name: a\n");
    assert_eq!(settings_yaml(false, "---\nname: a\n---\nbody"), "---\nname: a\n---\nbody");
    assert_eq!(settings_yaml(true, "---\nname: a"), "---\nname: a");
    assert!(!settings_update_is_complete("", "x", true));
    assert!(settings_update_is_complete("plugin", "x", true));
    assert!(!settings_update_is_complete("plugin", "x", false));
}

use cluaiz::serving::auth::{authorize, AuthHeader, AuthRefusal};
use cluaiz::serving::chat_flow::model_header_fields;
use cluaiz::settings::ApiAuth;

#[test]
fn api_routes_need_a_listed_bearer_token() {
    let on = ApiAuth { required: true, tokens: vec!["secret-1".to_string()] };
    let off = ApiAuth { required: false, tokens: Vec::new() };
    let bearer = |t: &str| AuthHeader::Value(format!("Bearer {}", t));
    assert_eq!(authorize("/index.html", &on, &AuthHeader::Missing), None);
    assert_eq!(authorize("/v1/system/permission", &on, &AuthHeader::Missing), None);
    assert_eq!(authorize("/health", &on, &AuthHeader::Missing), None);
    assert_eq!(authorize("/v1/chat/completions", &off, &AuthHeader::Missing), None);
    assert_eq!(authorize("/v1/chat/completions", &on, &AuthHeader::Missing), Some(AuthRefusal::MissingHeader));
    assert_eq!(authorize("/v1/chat/completions", &on, &AuthHeader::Unreadable), Some(AuthRefusal::UnreadableHeader));
    assert_eq!(
        authorize("/v1/chat/completions", &on, &AuthHeader::Value("Token secret-1".to_string())),
        Some(AuthRefusal::NotBearer)
    );
    assert_eq!(authorize("/v1/chat/completions", &on, &bearer("secret-1")), None);
    assert_eq!(authorize("/api/chat", &on, &bearer("  secret-1 ")), None);
    assert_eq!(authorize("/hardware", &on, &bearer("nope")), Some(AuthRefusal::UnknownToken));
    assert_eq!(AuthRefusal::UnknownToken.message(), "Invalid Bearer token.");
    assert_eq!(
        AuthRefusal::MissingHeader.message(),
        "Missing Authorization header. API Authentication is required."
    );
}

#[test]
fn loaded_model_header_fields() {
    let meta = vec![
        ("llama.context_length".to_string(), "8192".to_string()),
        ("tokenizer.think_start".to_string(), "<think>".to_string()),
        ("tokenizer.think_end".to_string(), "</think>".to_string()),
        ("general.context_length".to_string(), "many".to_string()),
    ];
    assert_eq!(model_header_fields(&meta, 4096), (8192, "<think>".to_string(), "</think>".to_string()));
    assert_eq!(model_header_fields(&Vec::new(), 4096), (4096, String::new(), String::new()));
}

#[test]
fn audio_requests_are_planned() {
    let es = installed();
    let files = vec![
        vec![file("encoder.onnx", true), file("decoder.onnx", false)],
        vec![file("kokoro.onnx", true)],
        vec![file("llama.gguf", true)],
    ];
    let dirs = vec!["/m/whisper".to_string(), "/m/kokoro".to_string(), "/m/llama".to_string()];
    let plan = plan_audio(&es, &files, &dirs, None, None, "url", "https://x/a.wav", None, None, None, None);
    let plan = match plan {
        Ok(p) => p,
        Err(_) => panic!("an audio input with a speech-to-text model installed is planned"),
    };
    assert_eq!(plan.model_id, "whisper-base");
    assert_eq!(plan.task, "speech_to_text");
    assert!(!plan.is_tts);
    assert_eq!(plan.candidates, vec!["/m/whisper/encoder.onnx", "/m/whisper/decoder.onnx"]);
    assert_eq!(
        plan.prompt,
        "[AUDIO_INPUT: https://x/a.wav] [LANGUAGE: auto] [TRANSLATE_TO: ] Transcribe speech to text cleanly."
    );

    let speak = plan_audio(&es, &files, &dirs, Some("kokoro"), None, "text", "hello", None, None, None, None);
    match speak {
        Ok(p) => {
            assert_eq!(p.model_id, "kokoro-v1");
            assert!(p.is_tts);
            assert_eq!(p.prompt, "[TEXT_INPUT] hello");
        },
        Err(_) => panic!("a named TTS model with a text input is planned"),
    }

    let missing = plan_audio(&es, &files, &dirs, Some("bark"), None, "text", "hi", None, None, None, None);
    assert!(matches!(missing, Err(AudioRefusal::ModelNotInstalled(ref m)) if m == "bark"));
    let none = plan_audio(&Vec::new(), &Vec::new(), &Vec::new(), None, None, "text", "hi", None, None, None, None);
    assert!(matches!(none, Err(AudioRefusal::NoModelForTask(ref t)) if t == "text_to_speech"));
    let wrong = plan_audio(&es, &files, &dirs, Some("kokoro"), Some("text_to_speech"), "url", "https://x/a.wav", None, None, None, None);
    match wrong {
        Err(r) => {
            assert!(matches!(r, AudioRefusal::Modality(ModalityError::AudioForSynthesis, ..)));
            assert_eq!(r.status(), 400);
            assert_eq!(
                r.message(),
                "Input modality mismatch: Model 'kokoro-v1' is configured for text-to-audio synthesis (task: 'text_to_speech'), but an Audio file input ('url') was provided. Expected Text input source."
            );
        },
        Ok(_) => panic!("an audio input for a synthesis task is refused"),
    }
    match plan_audio(&es, &files, &dirs, Some("Bark"), None, "text", "hi", None, None, None, None) {
        Err(r) => {
            assert_eq!(r.status(), 404);
            assert_eq!(r.message(), "Requested audio model 'Bark' is not installed in ModelRegistry.");
        },
        Ok(_) => panic!("a model that is not installed is refused"),
    }
    let no_task = AudioRefusal::NoModelForTask("text_to_speech".to_string());
    assert_eq!(no_task.status(), 404);
    assert_eq!(
        no_task.message(),
        format!(
            "No installed audio model found for task 'text_to_speech' in Engine ModelRegistry. Please install an audio model for {} {}.",
            "this", "task"
        )
    );
    let missing = AudioRefusal::ModelMissing("x".to_string());
    assert_eq!((missing.status(), missing.message()), (404, "Audio model 'x' not found in installed models.".to_string()));
    let text_in = AudioRefusal::Modality(
        ModalityError::TextForTranscription,
        "whisper-base".to_string(),
        "speech_to_text".to_string(),
        "text".to_string(),
    );
    assert_eq!(text_in.status(), 400);
    assert!(text_in.message().starts_with("Input modality mismatch: Model 'whisper-base' is configured for audio processing/transcription (task: 'speech_to_text')"));
}

#[test]
fn audio_retries_follow_the_first_error() {
    assert_eq!(next_audio_attempt(3, 0, "", false), Some(0));
    assert_eq!(next_audio_attempt(0, 0, "", false), None);
    assert_eq!(next_audio_attempt(3, 1, "", false), None);
    assert_eq!(next_audio_attempt(3, 1, "Invalid rank for input", true), Some(1));
    assert_eq!(next_audio_attempt(3, 1, "out of memory", true), None);
    assert_eq!(next_audio_attempt(3, 2, "Graph error", true), Some(2));
    assert_eq!(next_audio_attempt(3, 3, "Graph error", true), None);
}

#[test]
fn chat_refusals_carry_status_and_param() {
    assert_eq!(check_max_tokens(Some(0)), Err(ChatRequestError::MaxTokensOutOfRange));
    assert_eq!(check_max_tokens(Some(5)), Ok(()));
    assert_eq!(check_max_tokens(None), Ok(()));
    assert_eq!(clamp_max_tokens(Some(9000), 4096), Some(4096));
    assert_eq!(clamp_max_tokens(Some(12), 4096), Some(12));
    assert_eq!(clamp_max_tokens(None, 4096), None);
    let e = ChatRequestError::MaxTokensOutOfRange;
    assert_eq!((e.status(), e.param(), e.code()), (400, Some("max_tokens"), "parameter_out_of_range".to_string()));
    assert_eq!(e.message("chat"), "max_tokens must be greater than or equal to 1");
    assert_eq!(e.error_type(), "invalid_request_error");
    let m = ChatRequestError::ModelNotFound;
    assert_eq!((m.status(), m.param()), (200, None));
    assert_eq!(m.message("vision"), "No model is currently loaded in slot 'vision' and no valid override was provided.");
}

#[test]
fn chat_stream_steps() {
    let tok = |s: &str| StreamEvent::Token(s.to_string());
    assert_eq!(chat_stream_step(2, &tok("hello")), (2, StreamAction::Emit));
    assert_eq!(chat_stream_step(2, &tok(" [DONE]\n")), (2, StreamAction::Finish));
    assert_eq!(chat_stream_step(2, &tok("<TRIGGER:skill:web>{}</TRIGGER>")), (2, StreamAction::RunTool));
    assert_eq!(chat_stream_step(2, &tok("<TRIGGER:skill:web>{}")), (2, StreamAction::Emit));
    assert_eq!(chat_stream_step(2, &StreamEvent::StreamEnded), (2, StreamAction::Finish));
    assert_eq!(chat_stream_step(2, &StreamEvent::NewStream), (1, StreamAction::ReadOn));
    assert_eq!(chat_stream_step(0, &StreamEvent::NewStream), (0, StreamAction::Finish));
    assert_eq!(chat_stream_step(1, &StreamEvent::NoStream), (1, StreamAction::Finish));
    assert_eq!(CHAT_STREAM_PASSES, 3);
}

fn string_pairs(v: &[(&str, &str)]) -> Vec<(String, String)> {
    v.iter().map(|(k, x)| (k.to_string(), x.to_string())).collect()
}

#[test]
fn component_settings_read_schema_and_values() {
    let manifest = "name: web\nsettings:\n  api_key:\n    type: string\n    default: \"\"\n  retries: 3\n";
    let user = "plugins:\n  web:\n    retries: 5\n    1: odd\n  other:\n    retries: 9\n";
    let (schema, values) = component_settings("plugins", "web", manifest, Some(user));
    assert_eq!(schema, string_pairs(&[("api_key", r#"{"default":"","type":"string"}"#), ("retries", "3")]));
    assert_eq!(values, string_pairs(&[("retries", "5")]));
    let (_, none) = component_settings("plugin", "web", manifest, None);
    assert!(none.is_empty());
    let (skill_schema, _) = component_settings("skills", "s", "---\nsettings:\n  verbose: true\n---\nbody", None);
    assert_eq!(skill_schema, string_pairs(&[("verbose", "true")]));
    let (broken, _) = component_settings("plugin", "web", "a: [", Some("also: ["));
    assert!(broken.is_empty());
}

#[test]
fn settings_updates_merge_into_the_user_file() {
    let payload = r#"{"component_type":"plugins","component_id":"web","settings":{"retries":7,"mode":"fast","tags":[1],"on":true}}"#;
    let user = "plugins:\n  web:\n    retries: 5\n    keep: 1\nmcps:\n  x:\n    a: 2\n";
    let written = settings_update(payload, Some(user)).unwrap();
    let (_, values) = component_settings("plugin", "web", "", Some(&written));
    assert_eq!(
        values,
        string_pairs(&[("retries", "7"), ("keep", "1"), ("mode", "\"fast\""), ("on", "true"), ("tags", "null")])
    );
    let (_, others) = component_settings("mcp", "x", "", Some(&written));
    assert_eq!(others, string_pairs(&[("a", "2")]));
    let fresh = settings_update(payload, None).unwrap();
    let (_, fresh_values) = component_settings("plugin", "web", "", Some(&fresh));
    assert_eq!(fresh_values, string_pairs(&[("mode", "\"fast\""), ("on", "true"), ("retries", "7"), ("tags", "null")]));
    assert_eq!(settings_update(r#"{"component_type":"plugin","component_id":"web"}"#, None), None);
    assert_eq!(settings_update(r#"{"component_type":"s","component_id":"web","settings":{}}"#, None), None);
    assert_eq!(settings_update(r#"{"component_type":"plugin","settings":{}}"#, None), None);
}
