//! Hardware placement vocabulary and the default engine settings for GGUF models, plus
//! the context and memory telemetry snapshot.
use vstd::prelude::*;

verus! {

/// Which backend engine asks for resources.
#[derive(Debug, Clone, Copy, PartialEq, Eq, Structural)]
pub enum EngineType {
    GGUF,
    ONNX,
}

/// What kind of inference the engine performs.
#[derive(Debug, Clone, Copy, PartialEq, Eq, Structural)]
pub enum InferenceMode {
    Chat,
    Embedding,
    Audio,
    TTS,
}

/// Where a model is placed, from fastest to slowest.
#[derive(Debug, Clone, Copy, PartialEq, Eq, Structural)]
pub enum PlacementTier {
    GpuOnly,
    Hybrid,
    CpuOnly,
    SsdStreaming,
}

pub open spec fn tier_label(t: PlacementTier) -> Seq<char> {
    match t {
        PlacementTier::GpuOnly => "GPU Only (Tier 1)"@,
        PlacementTier::Hybrid => "Hybrid VRAM+RAM (Tier 2)"@,
        PlacementTier::CpuOnly => "CPU RAM Only (Tier 3)"@,
        PlacementTier::SsdStreaming => "SSD Streaming (Tier 4)"@,
    }
}

impl PlacementTier {
    /// The tier as shown to users.
    pub fn label(&self) -> (r: &'static str)
        ensures
            r@ == tier_label(*self),
    {
        match self {
            PlacementTier::GpuOnly => "GPU Only (Tier 1)",
            PlacementTier::Hybrid => "Hybrid VRAM+RAM (Tier 2)",
            PlacementTier::CpuOnly => "CPU RAM Only (Tier 3)",
            PlacementTier::SsdStreaming => "SSD Streaming (Tier 4)",
        }
    }
}

/// Hardware and execution settings of the GGUF engine.
pub struct GgufHardwareExecution {
    pub n_gpu_layers: i32,
    pub no_mmap: bool,
    pub override_tensor: String,
    pub batch_size: usize,
    pub ubatch_size: usize,
    pub cache_type_k: String,
    pub cache_type_v: String,
    pub parallel: usize,
    pub spec_type: String,
    pub spec_draft_n_max: usize,
}

impl Default for GgufHardwareExecution {
    /// CPU only, memory-mapped, batches of 512, `f16` KV cache, one slot, no
    /// speculative decoding.
    fn default() -> (r: Self)
        ensures
            r.n_gpu_layers == 0,
            !r.no_mmap,
            r.override_tensor@.len() == 0,
            r.batch_size == 512,
            r.ubatch_size == 512,
            r.cache_type_k@ == "f16"@,
            r.cache_type_v@ == "f16"@,
            r.parallel == 1,
            r.spec_type@.len() == 0,
            r.spec_draft_n_max == 0,
    {
        GgufHardwareExecution {
            n_gpu_layers: 0,
            no_mmap: false,
            override_tensor: String::new(),
            batch_size: 512,
            ubatch_size: 512,
            cache_type_k: "f16".to_owned(),
            cache_type_v: "f16".to_owned(),
            parallel: 1,
            spec_type: String::new(),
            spec_draft_n_max: 0,
        }
    }
}

/// Chat-template settings of the GGUF engine.
pub struct GgufTemplatingFlags {
    pub chat_template_file: String,
    pub chat_template_kwargs: String,
    pub jinja: bool,
    pub fit: String,
}

impl Default for GgufTemplatingFlags {
    /// No template file or arguments, Jinja off, `fit` off.
    fn default() -> (r: Self)
        ensures
            r.chat_template_file@.len() == 0,
            r.chat_template_kwargs@.len() == 0,
            !r.jinja,
            r.fit@ == "off"@,
    {
        GgufTemplatingFlags {
            chat_template_file: String::new(),
            chat_template_kwargs: String::new(),
            jinja: false,
            fit: "off".to_owned(),
        }
    }
}

/// Settings the user moved out of the sampler block.
pub struct UserMovedFlags {
    pub think_mode: String,
    pub response_length: std::collections::HashMap<String, String>,
}

impl Default for UserMovedFlags {
    /// Thinking `Auto`, no response-length overrides.
    fn default() -> (r: Self)
        ensures
            r.think_mode@ == "Auto"@,
            r.response_length@ == Map::<String, String>::empty(),
    {
        UserMovedFlags { think_mode: "Auto".to_owned(), response_length: std::collections::HashMap::new() }
    }
}

/// Context window and memory use of the running engine.
pub struct SystemContextTelemetry {
    pub total_context_limit: usize,
    pub active_context_pos: usize,
    pub messages_tokens: usize,
    pub system_prompt_tokens: usize,
    pub active_skills_tokens: usize,
    pub active_plugins_tokens: usize,
    pub active_mcp_tokens: usize,
    pub free_space_tokens: usize,
    pub deferred_saved_tokens: usize,
    pub deferred_tools_count: usize,
    pub active_tool_names: Vec<String>,
    pub vram_weights_mb: u64,
    pub vram_kv_cache_mb: u64,
    pub vram_total_mb: u64,
    pub process_ram_mb: u64,
}

impl Default for SystemContextTelemetry {
    /// Every count zero, no active tools.
    fn default() -> (r: Self)
        ensures
            r.total_context_limit == 0 && r.active_context_pos == 0 && r.messages_tokens == 0,
            r.system_prompt_tokens == 0 && r.active_skills_tokens == 0 && r.active_plugins_tokens == 0,
            r.active_mcp_tokens == 0 && r.free_space_tokens == 0 && r.deferred_saved_tokens == 0,
            r.deferred_tools_count == 0 && r.active_tool_names@.len() == 0,
            r.vram_weights_mb == 0 && r.vram_kv_cache_mb == 0 && r.vram_total_mb == 0
                && r.process_ram_mb == 0,
    {
        SystemContextTelemetry {
            total_context_limit: 0,
            active_context_pos: 0,
            messages_tokens: 0,
            system_prompt_tokens: 0,
            active_skills_tokens: 0,
            active_plugins_tokens: 0,
            active_mcp_tokens: 0,
            free_space_tokens: 0,
            deferred_saved_tokens: 0,
            deferred_tools_count: 0,
            active_tool_names: Vec::new(),
            vram_weights_mb: 0,
            vram_kv_cache_mb: 0,
            vram_total_mb: 0,
            process_ram_mb: 0,
        }
    }
}

} // verus!
