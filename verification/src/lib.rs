//! Model-file classification, asset bundling and registry logic of the Cluaiz
//! inference engine, with verified contracts.
use vstd::prelude::*;

pub mod text;
pub mod json;
pub mod yaml;
pub mod taxonomy;
pub mod fetch;
pub mod entities;
pub mod registry;
pub mod listing;
pub mod discovery;
pub mod prober;
pub mod moe;
pub mod settings;
pub mod codec;
pub mod chat;
pub mod order;
pub mod hardware;
pub mod manifest;
pub mod prompting;
pub mod serving;

verus! {
} // verus!
