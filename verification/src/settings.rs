//! The engine's permission settings: selected models, privacy switches, API port,
//! protocol and API authentication, with their defaults.
use vstd::prelude::*;

verus! {

/// Models selected for text, vision and audio.
pub struct ModelSelection {
    pub text: Option<String>,
    pub vision: Option<String>,
    pub audio: Option<String>,
}

impl Default for ModelSelection {
    fn default() -> (r: Self)
        ensures
            r.text is None,
            r.vision is None,
            r.audio is None,
    {
        ModelSelection { text: None, vision: None, audio: None }
    }
}

/// API authentication settings.
pub struct ApiAuth {
    pub required: bool,
    pub tokens: Vec<String>,
}

fn default_require_api_auth() -> (r: bool)
    ensures
        !r,
{
    false
}

fn default_api_tokens() -> (r: Vec<String>)
    ensures
        r@.len() == 0,
{
    Vec::new()
}

impl Default for ApiAuth {
    /// Authentication off, no tokens.
    fn default() -> (r: Self)
        ensures
            !r.required,
            r.tokens@.len() == 0,
    {
        ApiAuth { required: default_require_api_auth(), tokens: default_api_tokens() }
    }
}

fn default_wasm_firewall() -> (r: String)
    ensures
        r@ == "auto"@,
{
    "auto".to_owned()
}

fn default_connection_protocol() -> (r: String)
    ensures
        r@ == "http"@,
{
    "http".to_owned()
}

fn default_vectorize_user_input() -> (r: bool)
    ensures
        r,
{
    true
}

fn default_vectorize_ai_response() -> (r: bool)
    ensures
        r,
{
    true
}

fn default_stream_telemetry() -> (r: bool)
    ensures
        !r,
{
    false
}

fn default_lazy_load_model() -> (r: bool)
    ensures
        r,
{
    true
}

fn default_enable_kvcache() -> (r: bool)
    ensures
        r,
{
    true
}

fn default_model_header_info() -> (r: bool)
    ensures
        !r,
{
    false
}

fn default_api_port() -> (r: u16)
    ensures
        r == 8000,
{
    8000
}

/// Permission and privacy settings of the engine.
pub struct PermissionSchema {
    pub vector_models: ModelSelection,
    pub chat_models: ModelSelection,
    pub wasm_firewall: String,
    pub vectorize_user_input: bool,
    pub vectorize_ai_response: bool,
    pub stream_telemetry: bool,
    pub lazy_load_model: bool,
    pub enable_kvcache: bool,
    pub model_header_info: bool,
    pub api_port: u16,
    pub connection_protocol: String,
    pub api_auth: ApiAuth,
}

/// The default settings: no models selected, firewall `auto`, both vectorizations on,
/// telemetry streaming off, lazy loading and KV cache on, header info off, port 8000,
/// `http`, authentication off without tokens.
pub open spec fn is_default_schema(s: PermissionSchema) -> bool {
    &&& s.vector_models.text is None && s.vector_models.vision is None && s.vector_models.audio is None
    &&& s.chat_models.text is None && s.chat_models.vision is None && s.chat_models.audio is None
    &&& s.wasm_firewall@ == "auto"@
    &&& s.vectorize_user_input
    &&& s.vectorize_ai_response
    &&& !s.stream_telemetry
    &&& s.lazy_load_model
    &&& s.enable_kvcache
    &&& !s.model_header_info
    &&& s.api_port == 8000
    &&& s.connection_protocol@ == "http"@
    &&& !s.api_auth.required
    &&& s.api_auth.tokens@.len() == 0
}

impl Default for PermissionSchema {
    fn default() -> (r: Self)
        ensures
            is_default_schema(r),
    {
        PermissionSchema {
            vector_models: ModelSelection::default(),
            chat_models: ModelSelection::default(),
            wasm_firewall: default_wasm_firewall(),
            vectorize_user_input: default_vectorize_user_input(),
            vectorize_ai_response: default_vectorize_ai_response(),
            stream_telemetry: default_stream_telemetry(),
            lazy_load_model: default_lazy_load_model(),
            enable_kvcache: default_enable_kvcache(),
            model_header_info: default_model_header_info(),
            api_port: default_api_port(),
            connection_protocol: default_connection_protocol(),
            api_auth: ApiAuth::default(),
        }
    }
}

/// The settings with `id` selected as the chat model.
pub open spec fn with_chat_model(s: PermissionSchema, id: String) -> PermissionSchema {
    PermissionSchema { chat_models: ModelSelection { text: Some(id), ..s.chat_models }, ..s }
}

/// The settings with `id` selected as the embedding model.
pub open spec fn with_embedding_model(s: PermissionSchema, id: String) -> PermissionSchema {
    PermissionSchema { vector_models: ModelSelection { text: Some(id), ..s.vector_models }, ..s }
}

/// A selected model reads back as the active one, and selecting the chat model
/// leaves the embedding model as it was (and the other way round).
pub proof fn lemma_selection_reads_back(s: PermissionSchema, id: String)
    ensures
        with_chat_model(s, id).chat_models.text == Some(id),
        with_chat_model(s, id).vector_models == s.vector_models,
        with_embedding_model(s, id).vector_models.text == Some(id),
        with_embedding_model(s, id).chat_models == s.chat_models,
{
}

impl PermissionSchema {
    /// Models stay unselected until the user picks them: nothing is assigned.
    pub fn auto_assign_defaults(&mut self)
        ensures
            *final(self) == *old(self),
    {
    }

    /// The selected chat model.
    pub fn get_active_chat_model(&self) -> (r: Option<String>)
        ensures
            r == self.chat_models.text,
    {
        match &self.chat_models.text {
            Some(t) => Some(t.clone()),
            None => None,
        }
    }

    /// The selected embedding model.
    pub fn get_active_embedding_model(&self) -> (r: Option<String>)
        ensures
            r == self.vector_models.text,
    {
        match &self.vector_models.text {
            Some(t) => Some(t.clone()),
            None => None,
        }
    }

    /// Selects the chat model; nothing else changes.
    pub fn set_active_chat_model(&mut self, model_id: String)
        ensures
            *final(self) == with_chat_model(*old(self), model_id),
    {
        self.chat_models.text = Some(model_id);
    }

    /// Selects the embedding model; nothing else changes.
    pub fn set_active_embedding_model(&mut self, model_id: String)
        ensures
            *final(self) == with_embedding_model(*old(self), model_id),
    {
        self.vector_models.text = Some(model_id);
    }
}

} // verus!
