use cluaiz::chat::{default_audio_format, ContentPart, InputAudioContent, MediaUrlContent};
use cluaiz::hardware::PlacementTier;
use cluaiz::manifest::{default_category, default_context, DocumentIngestor, DocumentKind};
use cluaiz::registry::vault::ModelVault;

#[test]
fn manifest_defaults() {
    assert_eq!(default_context(), "8k");
    assert_eq!(default_category(), "chat");
    assert_eq!(default_audio_format(), "wav");
}

#[test]
fn document_kinds_by_extension() {
    assert_eq!(DocumentIngestor::document_kind("PNG"), DocumentKind::Image);
    assert_eq!(DocumentIngestor::document_kind("jpeg"), DocumentKind::Image);
    assert_eq!(DocumentIngestor::document_kind("Flac"), DocumentKind::Audio);
    assert_eq!(DocumentIngestor::document_kind("pdf"), DocumentKind::Pdf);
    assert_eq!(DocumentIngestor::document_kind("docx"), DocumentKind::Docx);
    assert_eq!(DocumentIngestor::document_kind("log"), DocumentKind::Text);
    assert_eq!(DocumentIngestor::document_kind(""), DocumentKind::Text);
}

#[test]
fn document_texts() {
    assert_eq!(DocumentIngestor::pdf_text("  \n ".to_string()), "Visual RAG processing placeholder...");
    assert_eq!(DocumentIngestor::pdf_text("Page one".to_string()), "Page one");
    assert_eq!(
        DocumentIngestor::audio_transcript("/tmp/a.wav"),
        "[AUDIO_TRANSCRIPT] The user said this in /tmp/a.wav"
    );
    assert_eq!(DocumentIngestor::docx_text(), "Extracted text from DOCX would go here.");
    assert_eq!(DocumentIngestor::image_marker("/x/cat.png", false), "[IMAGE:/x/cat.png]");
    assert_eq!(DocumentIngestor::image_marker("/x/cat.png", true), "[IMAGE_EMBEDDING:/x/cat.png]");
}

#[test]
fn media_sources_of_parts() {
    let text = ContentPart::Text { text: "hi".to_string() };
    assert_eq!(text.media_source(), None);
    let img = ContentPart::ImageUrl { image_url: MediaUrlContent { url: "http://x/y.png".to_string() } };
    assert_eq!(img.media_source(), Some("http://x/y.png".to_string()));
    let audio = ContentPart::InputAudio {
        input_audio: InputAudioContent { data: "QUJD".to_string(), format: "mp3".to_string() },
    };
    assert_eq!(audio.media_source(), Some("data:audio/mp3;base64,QUJD".to_string()));
}

#[test]
fn placement_tier_labels() {
    assert_eq!(PlacementTier::GpuOnly.label(), "GPU Only (Tier 1)");
    assert_eq!(PlacementTier::Hybrid.label(), "Hybrid VRAM+RAM (Tier 2)");
    assert_eq!(PlacementTier::CpuOnly.label(), "CPU RAM Only (Tier 3)");
    assert_eq!(PlacementTier::SsdStreaming.label(), "SSD Streaming (Tier 4)");
}

#[test]
fn vault_category_folders_and_endpoints() {
    assert_eq!(ModelVault::chat_dir("/m"), "/m/chat");
    assert_eq!(ModelVault::vision_ingest_dir("/m"), "/m/vision-ingest");
    assert_eq!(ModelVault::vision_embedding_dir("/m"), "/m/vision-embedding");
    assert_eq!(ModelVault::text_embedding_dir("/m"), "/m/text-embedding");
    assert_eq!(ModelVault::tts_dir("/m"), "/m/tts");
    assert_eq!(ModelVault::stt_dir("/m"), "/m/stt");
    assert_eq!(ModelVault::chat_endpoint(), "/v1/chat/completions");
    assert_eq!(ModelVault::vision_ingest_endpoint(), "/v1/ingest/file");
    assert_eq!(ModelVault::vision_embedding_endpoint(), "/v1/embeddings/vision");
    assert_eq!(ModelVault::text_embedding_endpoint(), "/v1/embeddings");
    assert_eq!(ModelVault::tts_endpoint(), "/v1/audio/speech");
    assert_eq!(ModelVault::stt_endpoint(), "/v1/audio/transcriptions");
    assert_eq!(ModelVault::resolve_category_dir("/m", "Text_Embedding"), "/m/text-embedding");
    assert_eq!(ModelVault::resolve_category_dir("/m", "Custom_Thing"), "/m/custom-thing");
    assert_eq!(ModelVault::resolve_category_endpoint("TTS"), "/v1/audio/speech");
    assert_eq!(ModelVault::resolve_category_endpoint("other"), "/v1/chat/completions");
    let d = ModelVault::category_descriptors("/m");
    assert_eq!(d.len(), 6);
    assert_eq!(d[4].category, "tts");
    assert_eq!(d[4].path, "/m/tts");
    assert_eq!(d[4].endpoint, "/v1/audio/speech");
    assert_eq!(d[5].description, "Speech-to-Text Audio Transcription (Whisper, SenseVoice)");
    let dirs = ModelVault::category_dirs("/m");
    assert_eq!(dirs[1], ("vision-ingest", "/m/vision-ingest".to_string()));
    for (k, desc) in d.iter().enumerate() {
        assert_eq!(ModelVault::resolve_category_dir("/m", desc.category), desc.path);
        assert_eq!(ModelVault::resolve_category_endpoint(desc.category), desc.endpoint);
        assert_eq!(dirs[k], (desc.category, desc.path.clone()));
    }
}
