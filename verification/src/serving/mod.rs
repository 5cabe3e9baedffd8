//! Decisions the API handlers take around a model call: request checks, model and
//! slot choice, prompt assembly, tool-trigger parsing, output interpretation and
//! the keep-alive policy.
pub mod chat_flow;
pub mod audio_flow;
pub mod embedding_flow;
pub mod components;
pub mod auth;
pub mod requests;
