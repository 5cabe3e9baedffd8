//! What a model folder's companion JSON files add to discovery: capability
//! flags from `config.json` and processor configs, and the chat template and
//! reasoning tags from the tokenizer files.
use vstd::prelude::*;
use crate::discovery::capabilities::{CapsView, ModelCapabilities};
use crate::discovery::probe::opt_str;
use crate::text::{contains, contains_any, has_any_sub, lower_chars, lowercase, string_views};

verus! {

/// Architecture-name markers of speech synthesis.
pub const TTS_ARCH_MARKERS: [&'static str; 3] = ["kokoro", "bark", "vits"];

/// Architecture-name markers of embedding models.
pub const EMBEDDING_ARCH_MARKERS: [&'static str; 2] = ["bert", "embedding"];

/// Key markers of a reasoning-start token.
pub const THINK_START_KEYS: [&'static str; 2] = ["think_start", "reasoning_start"];

/// Key markers of a reasoning-end token.
pub const THINK_END_KEYS: [&'static str; 2] = ["think_end", "reasoning_end"];

/// What an architecture name marks: 1 speech recognition (Whisper), 2 speech
/// synthesis, 3 embedding, 0 nothing; the first rule that matches decides.
pub open spec fn arch_kind(a: Seq<char>) -> int {
    let l = lowercase(a);
    if contains(l, "whisper"@) {
        1
    } else if contains_any(l, TTS_ARCH_MARKERS@) {
        2
    } else if contains_any(l, EMBEDDING_ARCH_MARKERS@) {
        3
    } else {
        0
    }
}

/// Some architecture of the list is of kind `k`.
pub open spec fn any_arch(archs: Seq<Seq<char>>, k: int) -> bool {
    exists|i: int| 0 <= i < archs.len() && arch_kind(#[trigger] archs[i]) == k
}

/// The facts `config.json` gives.
pub struct ConfigFacts {
    /// It has a `visual`, `vision_config` or `image_size` key.
    pub has_vision_keys: bool,
    /// It has an `audio_config` or `speech_config` key.
    pub has_audio_keys: bool,
    /// The string entries of its `architectures`.
    pub architectures: Vec<String>,
}

/// The capabilities after `config.json` (when it was read) and the presence of a
/// processor configuration are taken into account.
pub open spec fn config_caps(c: CapsView, cfg: Option<ConfigFacts>, processor: bool) -> CapsView {
    match cfg {
        Some(f) => {
            let archs = string_views(f.architectures@);
            CapsView {
                has_vision: c.has_vision || f.has_vision_keys || processor,
                is_vision_chat: c.is_vision_chat || (f.has_vision_keys && c.is_instruct),
                has_audio: c.has_audio || f.has_audio_keys || any_arch(archs, 1) || any_arch(archs, 2),
                is_asr: c.is_asr || any_arch(archs, 1),
                is_tts: c.is_tts || any_arch(archs, 2),
                is_embedding: c.is_embedding || any_arch(archs, 3),
                is_feature_extraction: c.is_feature_extraction || any_arch(archs, 3),
                ..c
            }
        },
        None => CapsView { has_vision: c.has_vision || processor, ..c },
    }
}

fn arch_kind_of(a: &str) -> (r: u8)
    ensures
        r as int == arch_kind(a@),
{
    let l = lower_chars(a);
    if crate::text::has_sub(&l, "whisper") {
        1
    } else if has_any_sub(&l, &TTS_ARCH_MARKERS) {
        2
    } else if has_any_sub(&l, &EMBEDDING_ARCH_MARKERS) {
        3
    } else {
        0
    }
}

fn arch_kinds(archs: &Vec<String>) -> (r: (bool, bool, bool))
    ensures
        r.0 == any_arch(string_views(archs@), 1),
        r.1 == any_arch(string_views(archs@), 2),
        r.2 == any_arch(string_views(archs@), 3),
{
    let ghost g = string_views(archs@);
    let mut asr = false;
    let mut tts = false;
    let mut emb = false;
    let mut i: usize = 0;
    while i < archs.len()
        invariant
            g == string_views(archs@),
            i <= archs@.len(),
            asr == exists|j: int| 0 <= j < i && arch_kind(#[trigger] g[j]) == 1,
            tts == exists|j: int| 0 <= j < i && arch_kind(#[trigger] g[j]) == 2,
            emb == exists|j: int| 0 <= j < i && arch_kind(#[trigger] g[j]) == 3,
        decreases archs.len() - i,
    {
        let k = arch_kind_of(archs[i].as_str());
        assert(g[i as int] == archs@[i as int]@);
        if k == 1 {
            asr = true;
        } else if k == 2 {
            tts = true;
        } else if k == 3 {
            emb = true;
        }
        i = i + 1;
    }
    (asr, tts, emb)
}

/// Applies the `config.json` facts and the processor-config marker.
pub fn apply_config_facts(caps: &mut ModelCapabilities, cfg: Option<ConfigFacts>, has_processor_config: bool)
    ensures
        final(caps)@ == config_caps(old(caps)@, cfg, has_processor_config),
{
    match cfg {
        Some(f) => {
            let (asr, tts, emb) = arch_kinds(&f.architectures);
            let instruct = caps.is_instruct;
            caps.has_vision = caps.has_vision || f.has_vision_keys || has_processor_config;
            caps.is_vision_chat = caps.is_vision_chat || (f.has_vision_keys && instruct);
            caps.has_audio = caps.has_audio || f.has_audio_keys || asr || tts;
            caps.is_asr = caps.is_asr || asr;
            caps.is_tts = caps.is_tts || tts;
            caps.is_embedding = caps.is_embedding || emb;
            caps.is_feature_extraction = caps.is_feature_extraction || emb;
        },
        None => {
            caps.has_vision = caps.has_vision || has_processor_config;
        },
    }
}

/// Chat template and reasoning tags the tokenizer files give.
pub struct ExtraMetadataFallback {
    pub chat_template: Option<String>,
    pub think_start_tag: Option<String>,
    pub think_end_tag: Option<String>,
}

/// Role a special-token key names: 1 reasoning start, 2 reasoning end, 0 none.
pub open spec fn token_role(key: Seq<char>) -> int {
    let l = lowercase(key);
    if contains_any(l, THINK_START_KEYS@) {
        1
    } else if contains_any(l, THINK_END_KEYS@) {
        2
    } else {
        0
    }
}

pub open spec fn pair_views(ps: Seq<(String, Option<String>)>) -> Seq<(Seq<char>, Option<Seq<char>>)> {
    ps.map_values(|p: (String, Option<String>)| (p.0@, opt_str(p.1)))
}

/// The tag of a role after a special-token map is read in order: the last
/// string value under a key of that role, else `prior`.
pub open spec fn last_token(ps: Seq<(Seq<char>, Option<Seq<char>>)>, role: int, prior: Option<Seq<char>>) -> Option<Seq<char>>
    decreases ps.len(),
{
    if ps.len() == 0 {
        prior
    } else if token_role(ps.last().0) == role && ps.last().1 is Some {
        ps.last().1
    } else {
        last_token(ps.drop_last(), role, prior)
    }
}

fn role_of(key: &str) -> (r: u8)
    ensures
        r as int == token_role(key@),
{
    let l = lower_chars(key);
    if has_any_sub(&l, &THINK_START_KEYS) {
        1
    } else if has_any_sub(&l, &THINK_END_KEYS) {
        2
    } else {
        0
    }
}

proof fn lemma_last_token_step(ps: Seq<(Seq<char>, Option<Seq<char>>)>, i: int, role: int, prior: Option<Seq<char>>)
    requires
        0 <= i < ps.len(),
    ensures
        last_token(ps.subrange(0, i + 1), role, prior) == (if token_role(ps[i].0) == role && ps[i].1 is Some {
            ps[i].1
        } else {
            last_token(ps.subrange(0, i), role, prior)
        }),
{
    assert(ps.subrange(0, i + 1).drop_last() =~= ps.subrange(0, i));
}

/// Reads a special-token map (its entries in order) into the reasoning tags.
pub fn read_special_tokens(extra: &mut ExtraMetadataFallback, pairs: &Vec<(String, Option<String>)>)
    ensures
        final(extra).chat_template == old(extra).chat_template,
        opt_str(final(extra).think_start_tag) == last_token(pair_views(pairs@), 1, opt_str(old(extra).think_start_tag)),
        opt_str(final(extra).think_end_tag) == last_token(pair_views(pairs@), 2, opt_str(old(extra).think_end_tag)),
{
    let ghost g = pair_views(pairs@);
    let ghost s0 = opt_str(extra.think_start_tag);
    let ghost e0 = opt_str(extra.think_end_tag);
    let mut i: usize = 0;
    assert(g.subrange(0, 0) =~= Seq::<(Seq<char>, Option<Seq<char>>)>::empty());
    while i < pairs.len()
        invariant
            g == pair_views(pairs@),
            i <= pairs@.len(),
            extra.chat_template == old(extra).chat_template,
            s0 == opt_str(old(extra).think_start_tag),
            e0 == opt_str(old(extra).think_end_tag),
            opt_str(extra.think_start_tag) == last_token(g.subrange(0, i as int), 1, s0),
            opt_str(extra.think_end_tag) == last_token(g.subrange(0, i as int), 2, e0),
        decreases pairs.len() - i,
    {
        proof {
            lemma_last_token_step(g, i as int, 1, s0);
            lemma_last_token_step(g, i as int, 2, e0);
        }
        assert(g[i as int] == (pairs@[i as int].0@, opt_str(pairs@[i as int].1)));
        let r = role_of(pairs[i].0.as_str());
        match &pairs[i].1 {
            Some(v) => {
                if r == 1 {
                    extra.think_start_tag = Some(v.as_str().to_owned());
                } else if r == 2 {
                    extra.think_end_tag = Some(v.as_str().to_owned());
                }
            },
            None => {},
        }
        i = i + 1;
    }
    assert(g.subrange(0, pairs@.len() as int) =~= g);
}

/// What `chat_template.json` held: parsed JSON (with its `chat_template` string,
/// if any), or text that is not JSON.
pub enum ChatTemplateFile {
    Parsed(Option<String>),
    Raw(String),
}

/// The tokenizer-side facts of a model folder.
pub struct TokenizerFacts {
    /// The `chat_template` string of `tokenizer_config.json`.
    pub chat_template: Option<String>,
    /// The entries of its `special_tokens_map`, in order.
    pub special_tokens: Vec<(String, Option<String>)>,
}

/// Everything the companion JSON files of a folder gave.
pub struct FallbackFacts {
    pub config: Option<ConfigFacts>,
    pub has_processor_config: bool,
    pub tokenizer: Option<TokenizerFacts>,
    pub special_tokens_file: Option<Vec<(String, Option<String>)>>,
    pub chat_template_file: Option<ChatTemplateFile>,
}

/// Chat template: the tokenizer's, else that of `chat_template.json` (its text
/// when it is not JSON).
pub open spec fn fallback_template(facts: FallbackFacts) -> Option<Seq<char>> {
    let from_tokenizer = match facts.tokenizer {
        Some(t) => opt_str(t.chat_template),
        None => None,
    };
    if from_tokenizer is Some {
        from_tokenizer
    } else {
        match facts.chat_template_file {
            Some(ChatTemplateFile::Parsed(t)) => opt_str(t),
            Some(ChatTemplateFile::Raw(text)) => Some(text@),
            None => None,
        }
    }
}

/// A reasoning tag: from the tokenizer's special-token map, then overridden by
/// `special_tokens_map.json`.
pub open spec fn fallback_tag(facts: FallbackFacts, role: int) -> Option<Seq<char>> {
    let from_tokenizer = match facts.tokenizer {
        Some(t) => last_token(pair_views(t.special_tokens@), role, None),
        None => None,
    };
    match facts.special_tokens_file {
        Some(ps) => last_token(pair_views(ps@), role, from_tokenizer),
        None => from_tokenizer,
    }
}

/// Enriches the capabilities from a folder's companion files and returns the
/// chat template and reasoning tags they give.
pub fn enrich_from_fallback_jsons(facts: FallbackFacts, caps: &mut ModelCapabilities) -> (r: ExtraMetadataFallback)
    ensures
        final(caps)@ == config_caps(old(caps)@, facts.config, facts.has_processor_config),
        opt_str(r.chat_template) == fallback_template(facts),
        opt_str(r.think_start_tag) == fallback_tag(facts, 1),
        opt_str(r.think_end_tag) == fallback_tag(facts, 2),
{
    let ghost f0 = facts;
    let FallbackFacts { config, has_processor_config, tokenizer, special_tokens_file, chat_template_file } = facts;
    apply_config_facts(caps, config, has_processor_config);
    let mut extra = ExtraMetadataFallback { chat_template: None, think_start_tag: None, think_end_tag: None };
    if let Some(t) = tokenizer {
        let TokenizerFacts { chat_template, special_tokens } = t;
        extra.chat_template = chat_template;
        read_special_tokens(&mut extra, &special_tokens);
    }
    if let Some(ps) = special_tokens_file {
        read_special_tokens(&mut extra, &ps);
    }
    if extra.chat_template.is_none() {
        match chat_template_file {
            Some(ChatTemplateFile::Parsed(t)) => {
                extra.chat_template = t;
            },
            Some(ChatTemplateFile::Raw(text)) => {
                extra.chat_template = Some(text);
            },
            None => {},
        }
    }
    extra
}

/// Keys of `config.json` that mark a vision model.
pub const CONFIG_VISION_KEYS: [&'static str; 3] = ["visual", "vision_config", "image_size"];

/// Keys of `config.json` that mark an audio model.
pub const CONFIG_AUDIO_KEYS: [&'static str; 2] = ["audio_config", "speech_config"];

/// Does the JSON object `text` have one of `keys`?
pub open spec fn has_any_key(text: Seq<char>, keys: Seq<&str>) -> bool {
    exists|i: int| 0 <= i < keys.len() && crate::json::json_has_key(text, #[trigger] keys[i]@)
}

/// `f` is what the `config.json` text `c` says.
pub open spec fn config_facts_of(c: Seq<char>, f: ConfigFacts) -> bool {
    &&& f.has_vision_keys == has_any_key(c, CONFIG_VISION_KEYS@)
    &&& f.has_audio_keys == has_any_key(c, CONFIG_AUDIO_KEYS@)
    &&& string_views(f.architectures@) == crate::json::opt_item_strings(crate::json::json_items_at(c, "architectures"@))
}

/// `f` is what the `tokenizer_config.json` text `t` says.
pub open spec fn tokenizer_facts_of(t: Seq<char>, f: TokenizerFacts) -> bool {
    &&& opt_str(f.chat_template) == crate::json::json_str_at(t, "chat_template"@)
    &&& crate::json::entries_view(f.special_tokens@) == (match crate::json::json_entries_at(t, "special_tokens_map"@) {
        Some(e) => e,
        None => Seq::empty(),
    })
}

/// `f` is what the `chat_template.json` text `t` gives: the string under its
/// `chat_template` key when it parses, else the whole text.
pub open spec fn template_file_of(t: Seq<char>, f: ChatTemplateFile) -> bool {
    match f {
        ChatTemplateFile::Parsed(x) => crate::json::json_parses(t) && opt_str(x) == crate::json::json_str_at(t, "chat_template"@),
        ChatTemplateFile::Raw(c) => !crate::json::json_parses(t) && c@ == t,
    }
}

/// Does any of `keys` occur in the JSON object `text`?
fn any_key_present(text: &str, keys: &[&'static str]) -> (r: bool)
    ensures
        r == has_any_key(text@, keys@),
{
    let mut i: usize = 0;
    while i < keys.len()
        invariant
            i <= keys@.len(),
            forall|j: int| 0 <= j < i ==> !crate::json::json_has_key(text@, #[trigger] keys@[j]@),
        decreases keys.len() - i,
    {
        if crate::json::has_key(text, keys[i]) {
            return true;
        }
        i = i + 1;
    }
    false
}

/// The facts of a folder's companion JSON files from their texts (`None` for a
/// file that is missing or unreadable): `config.json`, whether a processor
/// configuration exists, `tokenizer_config.json`, `special_tokens_map.json` and
/// `chat_template.json`.  A JSON file that does not parse gives no facts, but for
/// `chat_template.json`, whose raw text is kept then.
pub fn fallback_facts_from_texts(
    config: Option<&str>,
    has_processor_config: bool,
    tokenizer_config: Option<&str>,
    special_tokens_map: Option<&str>,
    chat_template: Option<&str>,
) -> (r: FallbackFacts)
    ensures
        match (config, r.config) {
            (None, None) => true,
            (Some(c), None) => !crate::json::json_parses(c@),
            (Some(c), Some(f)) => crate::json::json_parses(c@) && config_facts_of(c@, f),
            (None, Some(_)) => false,
        },
        r.has_processor_config == has_processor_config,
        match (tokenizer_config, r.tokenizer) {
            (None, None) => true,
            (Some(t), None) => !crate::json::json_parses(t@),
            (Some(t), Some(f)) => crate::json::json_parses(t@) && tokenizer_facts_of(t@, f),
            (None, Some(_)) => false,
        },
        crate::json::opt_entries_view(r.special_tokens_file) == (match special_tokens_map {
            Some(t) => crate::json::json_entries(t@),
            None => None,
        }),
        match (chat_template, r.chat_template_file) {
            (None, None) => true,
            (Some(t), Some(f)) => template_file_of(t@, f),
            _ => false,
        },
{
    let config_facts = match config {
        Some(c) => if crate::json::parses(c) {
            Some(ConfigFacts {
                has_vision_keys: any_key_present(c, &CONFIG_VISION_KEYS),
                has_audio_keys: any_key_present(c, &CONFIG_AUDIO_KEYS),
                architectures: crate::json::strings_of_items(crate::json::items_at(c, "architectures")),
            })
        } else {
            None
        },
        None => None,
    };
    let tokenizer = match tokenizer_config {
        Some(t) => if crate::json::parses(t) {
            let special_tokens = match crate::json::entries_at(t, "special_tokens_map") {
                Some(e) => e,
                None => Vec::new(),
            };
            proof {
                assert(crate::json::json_entries_at(t@, "special_tokens_map"@) is None
                    ==> crate::json::entries_view(special_tokens@) =~= Seq::empty());
            }
            Some(TokenizerFacts { chat_template: crate::json::str_at(t, "chat_template"), special_tokens })
        } else {
            None
        },
        None => None,
    };
    let special_tokens_file = match special_tokens_map {
        Some(t) => crate::json::entries_of(t),
        None => None,
    };
    let chat_template_file = match chat_template {
        Some(t) => if crate::json::parses(t) {
            Some(ChatTemplateFile::Parsed(crate::json::str_at(t, "chat_template")))
        } else {
            Some(ChatTemplateFile::Raw(t.to_owned()))
        },
        None => None,
    };
    FallbackFacts { config: config_facts, has_processor_config, tokenizer, special_tokens_file, chat_template_file }
}

} // verus!
