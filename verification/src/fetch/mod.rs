pub mod tts_resolver;
pub mod asset_bundler;
pub mod hub;
pub mod manifest_plan;
pub mod client;
