//! Request payloads of the API and what the handlers read from them.
use vstd::prelude::*;
use crate::serving::components::{component_kind, settings_file_name};
use crate::serving::embedding_flow::{total_len, total_words, total_word_count};
use crate::text::{chars_of, ends_with, has_suffix, lowercase, lower_chars, replace_char, string_views, trim_end_char};

verus! {

/// The input of an embeddings request: one text or several.
pub enum EmbeddingInput {
    Single(String),
    Multiple(Vec<String>),
}

impl EmbeddingInput {
    /// The texts to embed, in order.
    pub fn into_texts(self) -> (r: Vec<String>)
        ensures
            string_views(r@) == match self {
                EmbeddingInput::Single(s) => seq![s@],
                EmbeddingInput::Multiple(v) => string_views(v@),
            },
    {
        match self {
            EmbeddingInput::Single(s) => {
                let r = vec![s];
                assert(string_views(r@) =~= seq![r@[0]@]);
                r
            },
            EmbeddingInput::Multiple(v) => v,
        }
    }
}

/// An embeddings request.
pub struct EmbeddingRequest {
    pub input: EmbeddingInput,
    pub model: Option<String>,
    pub encoding_format: Option<String>,
    pub user: Option<String>,
}

/// Usage reported for an embeddings request.
pub struct EmbeddingUsage {
    pub prompt_tokens: usize,
    pub total_tokens: usize,
}

impl EmbeddingUsage {
    /// Both counts are the number of white-space separated words of the inputs.
    pub fn of(texts: &Vec<String>) -> (r: Self)
        requires
            total_len(string_views(texts@)) <= usize::MAX,
        ensures
            r.prompt_tokens == total_words(string_views(texts@)),
            r.total_tokens == r.prompt_tokens,
    {
        let n = total_word_count(texts);
        EmbeddingUsage { prompt_tokens: n, total_tokens: n }
    }
}

/// Where an audio request's input comes from.
pub struct InputSource {
    pub source_type: String,
    pub data: String,
}

impl InputSource {
    /// (is audio, is text), as `classify_audio_input` decides.
    pub fn kind(&self) -> (r: (bool, bool))
        ensures
            r.0 == crate::serving::audio_flow::is_audio_input_spec(self.source_type@, self.data@),
            r.1 == crate::serving::audio_flow::is_text_input_spec(self.source_type@, self.data@),
    {
        crate::serving::audio_flow::classify_audio_input(self.source_type.as_str(), self.data.as_str())
    }
}

/// What an ingest response holds.
pub struct OutputControls {
    pub return_text: Option<bool>,
    pub return_embeddings: Option<bool>,
}

/// How documents are cut into chunks.
pub struct ChunkingStrategy {
    pub strategy_type: Option<String>,
    pub max_chunk_size: Option<usize>,
    pub overlap: Option<usize>,
}

/// How images are read.
pub struct VisionSettings {
    pub use_vision: Option<bool>,
    pub detail_level: Option<String>,
    pub system_instruction: Option<String>,
}

/// One source or several.
pub enum SourceInput {
    Single(String),
    Multiple(Vec<String>),
}

/// An ingest request.
pub struct IngestPayload {
    pub source: SourceInput,
    pub namespace: Option<String>,
    pub model: Option<String>,
    pub output_controls: Option<OutputControls>,
    pub chunking_strategy: Option<ChunkingStrategy>,
    pub vision_settings: Option<VisionSettings>,
}

/// Default chunk size of document ingestion.
pub const DEFAULT_CHUNK_SIZE: usize = 512;

impl IngestPayload {
    /// Are embeddings returned (unless switched off)?
    pub fn returns_embeddings(&self) -> (r: bool)
        ensures
            r == match self.output_controls {
                Some(c) => match c.return_embeddings {
                    Some(b) => b,
                    None => true,
                },
                None => true,
            },
    {
        match &self.output_controls {
            Some(c) => match c.return_embeddings {
                Some(b) => b,
                None => true,
            },
            None => true,
        }
    }

    /// Are chunk texts returned (unless switched off)?
    pub fn returns_text(&self) -> (r: bool)
        ensures
            r == match self.output_controls {
                Some(c) => match c.return_text {
                    Some(b) => b,
                    None => true,
                },
                None => true,
            },
    {
        match &self.output_controls {
            Some(c) => match c.return_text {
                Some(b) => b,
                None => true,
            },
            None => true,
        }
    }

    /// Maximum chunk size (512 unless given).
    pub fn chunk_size(&self) -> (r: usize)
        ensures
            r == match self.chunking_strategy {
                Some(c) => match c.max_chunk_size {
                    Some(n) => n,
                    None => DEFAULT_CHUNK_SIZE,
                },
                None => DEFAULT_CHUNK_SIZE,
            },
    {
        match &self.chunking_strategy {
            Some(c) => match c.max_chunk_size {
                Some(n) => n,
                None => DEFAULT_CHUNK_SIZE,
            },
            None => DEFAULT_CHUNK_SIZE,
        }
    }

    /// The sources to ingest, in order.
    pub fn sources(&self) -> (r: Vec<String>)
        ensures
            string_views(r@) == match self.source {
                SourceInput::Single(s) => seq![s@],
                SourceInput::Multiple(v) => string_views(v@),
            },
    {
        match &self.source {
            SourceInput::Single(s) => {
                let r = vec![s.as_str().to_owned()];
                assert(string_views(r@) =~= seq![r@[0]@]);
                r
            },
            SourceInput::Multiple(v) => {
                let mut r: Vec<String> = Vec::new();
                let mut i: usize = 0;
                while i < v.len()
                    invariant
                        i <= v@.len(),
                        r@.len() == i,
                        forall|j: int| 0 <= j < i ==> #[trigger] r@[j]@ == v@[j]@,
                    decreases v.len() - i,
                {
                    r.push(v[i].as_str().to_owned());
                    i = i + 1;
                }
                assert(string_views(r@) =~= string_views(v@));
                r
            },
        }
    }

    /// The namespace (`default` unless given).
    pub fn namespace_or_default(&self) -> (r: String)
        ensures
            r@ == match self.namespace {
                Some(n) => n@,
                None => "default"@,
            },
    {
        match &self.namespace {
            Some(n) => n.as_str().to_owned(),
            None => "default".to_owned(),
        }
    }

    /// The system instruction for images, when vision settings give one.
    pub fn vision_instruction(&self) -> (r: Option<String>)
        ensures
            crate::text::opt_view(r) == match self.vision_settings {
                Some(v) => crate::text::opt_view(v.system_instruction),
                None => None,
            },
    {
        match &self.vision_settings {
            Some(v) => match &v.system_instruction {
                Some(s) => Some(s.as_str().to_owned()),
                None => None,
            },
            None => None,
        }
    }
}

/// Files processed: the sources minus those that failed.
pub fn files_processed(sources: usize, failures: usize) -> (r: usize)
    requires
        failures <= sources,
    ensures
        r == sources - failures,
{
    sources - failures
}

/// A component-settings query.
pub struct SettingsQuery {
    pub component_type: String,
    pub component_id: String,
}

/// A component-file query.
pub struct GetFileQuery {
    pub component_type: String,
    pub component_id: String,
    pub file_path: Option<String>,
}

/// A cache-clearing request.
pub struct ClearCachePayload {
    pub component_type: String,
    pub component_id: String,
    pub all: bool,
}

/// The settings file of a component kind (after trailing `s` are removed).
pub open spec fn settings_file_spec(raw_kind: Seq<char>) -> Seq<char> {
    let kind = trim_end_char(raw_kind, 's');
    if kind == "skill"@ { "SKILL.md"@ } else { "manifest-"@ + kind + ".yaml"@ }
}

impl GetFileQuery {
    /// The file asked for, relative to the component's folder: the given path, or
    /// the component's settings file.
    pub fn target_file(&self) -> (r: String)
        ensures
            r@ == match self.file_path {
                Some(p) => p@,
                None => settings_file_spec(self.component_type@),
            },
    {
        match &self.file_path {
            Some(p) => p.as_str().to_owned(),
            None => {
                let kind = component_kind(self.component_type.as_str());
                settings_file_name(kind.as_str())
            },
        }
    }
}

/// Cache files that count as temporary: all but `.safetensors` and `.bin` weights.
pub fn is_temporary_cache_file(name: &str) -> (r: bool)
    ensures
        r == (!ends_with(name@, ".safetensors"@) && !ends_with(name@, ".bin"@)),
{
    let c = chars_of(name);
    !has_suffix(&c, ".safetensors") && !has_suffix(&c, ".bin")
}

/// (name, size) of the files of a cache folder.
pub open spec fn cache_views(files: Seq<(String, u64)>) -> Seq<(Seq<char>, u64)> {
    files.map_values(|f: (String, u64)| (f.0@, f.1))
}

/// Bytes of all the files.
pub open spec fn total_size(fs: Seq<(Seq<char>, u64)>) -> nat
    decreases fs.len(),
{
    if fs.len() == 0 {
        0
    } else {
        total_size(fs.drop_last()) + fs.last().1 as nat
    }
}

/// Bytes of the temporary files.
pub open spec fn temporary_size(fs: Seq<(Seq<char>, u64)>) -> nat
    decreases fs.len(),
{
    if fs.len() == 0 {
        0
    } else {
        let last = fs.last();
        temporary_size(fs.drop_last()) + if !ends_with(last.0, ".safetensors"@) && !ends_with(last.0, ".bin"@) {
            last.1 as nat
        } else {
            0
        }
    }
}

proof fn lemma_sizes_grow(fs: Seq<(Seq<char>, u64)>, i: int)
    requires
        0 <= i <= fs.len(),
    ensures
        total_size(fs.subrange(0, i)) <= total_size(fs),
        temporary_size(fs) <= total_size(fs),
    decreases fs.len(),
{
    if fs.len() > 0 {
        if i < fs.len() {
            assert(fs.drop_last().subrange(0, i) =~= fs.subrange(0, i));
            lemma_sizes_grow(fs.drop_last(), i);
        } else {
            assert(fs.subrange(0, i) =~= fs);
            lemma_sizes_grow(fs.drop_last(), 0);
        }
    } else {
        assert(fs.subrange(0, i) =~= fs);
    }
}

/// (temporary bytes, all bytes) of a component's cache folder.
pub fn cache_sizes(files: &Vec<(String, u64)>) -> (r: (u64, u64))
    requires
        total_size(cache_views(files@)) <= u64::MAX,
    ensures
        r.0 == temporary_size(cache_views(files@)),
        r.1 == total_size(cache_views(files@)),
{
    let ghost fs = cache_views(files@);
    let mut temp: u64 = 0;
    let mut all: u64 = 0;
    let mut i: usize = 0;
    assert(fs.subrange(0, 0) =~= Seq::<(Seq<char>, u64)>::empty());
    while i < files.len()
        invariant
            fs == cache_views(files@),
            total_size(fs) <= u64::MAX,
            i <= files@.len(),
            all == total_size(fs.subrange(0, i as int)),
            temp == temporary_size(fs.subrange(0, i as int)),
        decreases files.len() - i,
    {
        let ghost pre = fs.subrange(0, i + 1);
        assert(pre.drop_last() =~= fs.subrange(0, i as int));
        assert(pre.last() == fs[i as int]);
        assert(fs[i as int] == (files@[i as int].0@, files@[i as int].1));
        proof {
            lemma_sizes_grow(fs, i + 1);
            lemma_sizes_grow(pre, i + 1);
        }
        let size = files[i].1;
        all = all + size;
        if is_temporary_cache_file(files[i].0.as_str()) {
            temp = temp + size;
        }
        i = i + 1;
    }
    assert(fs.subrange(0, files@.len() as int) =~= fs);
    (temp, all)
}

/// A pull request.
pub struct PullPayload {
    pub model_id: String,
}

/// A load request.
pub struct LoadPayload {
    pub model_id: String,
}

/// Does a roster model answer to the requested id: by id, file name or name
/// (case-insensitively), or by its id with `:` read as `-`?
pub open spec fn roster_match_spec(requested: Seq<char>, id: Seq<char>, filename: Seq<char>, name: Seq<char>) -> bool {
    let r = lowercase(requested);
    lowercase(id) == r || lowercase(filename) == r || lowercase(name) == r || lowercase(replace_char(id, ':', '-')) == r
}

impl LoadPayload {
    pub fn matches_model(&self, id: &str, filename: &str, name: &str) -> (r: bool)
        ensures
            r == roster_match_spec(self.model_id@, id@, filename@, name@),
    {
        let r = lower_chars(self.model_id.as_str());
        let i = lower_chars(id);
        let f = lower_chars(filename);
        let n = lower_chars(name);
        let dashed = crate::text::string_of(&crate::text::replace_char_chars(&chars_of(id), ':', '-'));
        let d = lower_chars(dashed.as_str());
        crate::text::chars_eq(&i, &r) || crate::text::chars_eq(&f, &r) || crate::text::chars_eq(&n, &r)
            || crate::text::chars_eq(&d, &r)
    }
}

} // verus!
