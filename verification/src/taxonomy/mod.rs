pub mod tags;
pub mod heuristics;
pub mod quantization;
pub mod stt_families;
pub mod rules;
pub mod classifier;
