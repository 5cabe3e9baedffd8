use cluaiz::fetch::client::{
    resolved_repo, resolver_query_id, telemetry_allowed, FileDownloader, RegistryClient, GATED_PREFIX, GATED_SUFFIX,
};

#[test]
fn registry_client_trims_base_and_builds_urls() {
    let c = RegistryClient::new("https://cdn.example.com/registry//".to_string());
    assert_eq!(c.base_url(), "https://cdn.example.com/registry");
    assert_eq!(c.index_url(), "https://cdn.example.com/registry/index.json");
    assert_eq!(
        c.manifest_url("qwen", "2", "qwen-0.5b"),
        "https://cdn.example.com/registry/library/qwen/v-2/qwen-0.5b.json"
    );
    let plain = RegistryClient::new("http://localhost:9000".to_string());
    assert_eq!(plain.index_url(), "http://localhost:9000/index.json");
}

#[test]
fn telemetry_opt_outs() {
    assert!(telemetry_allowed(None, None, "qwen:0.6b"));
    assert!(!telemetry_allowed(Some("1"), None, "qwen:0.6b"));
    assert!(telemetry_allowed(Some("0"), None, "qwen:0.6b"));
    assert!(!telemetry_allowed(None, Some("0"), "qwen:0.6b"));
    assert!(telemetry_allowed(None, Some("1"), "qwen:0.6b"));
    assert!(!telemetry_allowed(None, None, "   "));
}

#[test]
fn resolver_id_and_reply() {
    assert_eq!(resolver_query_id("  whisper-base "), Some("whisper-base".to_string()));
    assert_eq!(resolver_query_id("   "), None);
    assert_eq!(resolved_repo(Some(true), Some(" org/model ")), Some("org/model".to_string()));
    assert_eq!(resolved_repo(Some(false), Some("org/model")), None);
    assert_eq!(resolved_repo(None, Some("org/model")), None);
    assert_eq!(resolved_repo(Some(true), Some("  ")), None);
    assert_eq!(resolved_repo(Some(true), None), None);
}

#[test]
fn download_failure_messages() {
    assert_eq!(FileDownloader::failure_message(404, "404 Not Found"), "Download failed: HTTP 404 Not Found");
    let gated = FileDownloader::failure_message(403, "403 Forbidden");
    assert_eq!(gated, format!("{}403 Forbidden{}", GATED_PREFIX, GATED_SUFFIX));
    assert!(gated.starts_with("\u{1f512} [Gated Model Download Blocked - HTTP 403 Forbidden]"));
    assert!(gated.contains("export HF_TOKEN=\"hf_your_token\""));
    assert!(FileDownloader::failure_message(401, "401 Unauthorized").contains("requires an authorized token"));
}
