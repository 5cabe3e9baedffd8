//! Chat-template rendering: a model's own template, or a family fallback when it
//! has none or it fails to render.
use std::collections::BTreeMap;
use vstd::prelude::*;
use crate::json::{parse_messages, parsed_messages, str_at};
use crate::text::{chars_of, concat_chars, concat_str, contains, has_sub, lower_chars, lowercase, opt_view, string_of};

verus! {

pub const GEMMA4_TEMPLATE: &'static str = "{% for m in messages %}<|turn>{{ 'user' if m.role == 'user' or m.role == 'system' else 'model' }}\n{{ m.content }}<turn|>\n{% endfor %}{% if add_generation_prompt %}<|turn>model\n{% endif %}";

pub const GEMMA_TEMPLATE: &'static str = "{% for m in messages %}<start_of_turn>{{ 'user' if m.role == 'user' or m.role == 'system' else 'model' }}\n{{ m.content }}<end_of_turn>\n{% endfor %}{% if add_generation_prompt %}<start_of_turn>model\n{% endif %}";

pub const LLAMA_TEMPLATE: &'static str = "<|begin_of_text|>{% for m in messages %}<|start_header_id|>{{ m.role }}<|end_header_id|>\n\n{{ m.content }}<|eot_id|>{% endfor %}{% if add_generation_prompt %}<|start_header_id|>assistant<|end_header_id|>\n\n{% endif %}";

pub const CHATML_TEMPLATE: &'static str = "{% for m in messages %}<|im_start|>{{ m.role }}\n{{ m.content }}<|im_end|>\n{% endfor %}{% if add_generation_prompt %}<|im_start|>assistant\n{% endif %}";

/// Which fallback template family a model uses.
#[derive(Debug, Clone, Copy, PartialEq, Eq, Structural)]
pub enum TemplateFamily {
    Gemma4,
    Gemma,
    Llama,
    ChatMl,
}

/// The family by the lower-cased model identity and the raw template, first match wins;
/// ChatML otherwise.
pub open spec fn template_family(identity: Seq<char>, raw: Seq<char>) -> TemplateFamily {
    let arch = lowercase(identity);
    if contains(arch, "gemma4"@) || contains(arch, "gemma-4"@) || contains(raw, "<|turn"@) {
        TemplateFamily::Gemma4
    } else if contains(arch, "gemma"@) || contains(raw, "start_of_turn"@) {
        TemplateFamily::Gemma
    } else if contains(arch, "llama"@) || contains(raw, "start_header_id"@) {
        TemplateFamily::Llama
    } else {
        TemplateFamily::ChatMl
    }
}

pub open spec fn family_template(f: TemplateFamily) -> Seq<char> {
    match f {
        TemplateFamily::Gemma4 => GEMMA4_TEMPLATE@,
        TemplateFamily::Gemma => GEMMA_TEMPLATE@,
        TemplateFamily::Llama => LLAMA_TEMPLATE@,
        TemplateFamily::ChatMl => CHATML_TEMPLATE@,
    }
}

/// What rendering a Jinja chat template with MiniJinja gives for these messages
/// (each the JSON text of a message object), generation-prompt flag and begin /
/// end-of-sequence tokens; `None` when the template does not parse or its
/// rendering fails.
pub uninterp spec fn rendered_template(
    template: Seq<char>,
    messages: Seq<Seq<char>>,
    add_generation_prompt: bool,
    bos_token: Seq<char>,
    eos_token: Seq<char>,
) -> Option<Seq<char>>;

/// The begin-of-sequence token handed to chat templates: empty, since the
/// tokenizer adds its own.
pub const BOS_TOKEN: &'static str = "";

/// The end-of-sequence token handed to chat templates: empty as well.
pub const EOS_TOKEN: &'static str = "";

/// MiniJinja's `Environment::render_str`: renders `template` with `messages` (each
/// message's JSON text parsed by `serde_json` and handed over whole),
/// `add_generation_prompt`, `bos_token` and `eos_token`.  Its output is named
/// `rendered_template`; an error gives `None`.
#[verifier::external_body]
fn render_jinja(
    template: &str,
    messages: &Vec<String>,
    add_generation_prompt: bool,
    bos: &str,
    eos: &str,
) -> (r: Option<String>)
    ensures
        opt_view(r) == rendered_template(template@, crate::text::string_views(messages@), add_generation_prompt, bos@, eos@),
{
    let list: Vec<minijinja::Value> = messages.iter().map(|m| match serde_json::from_str::<serde_json::Value>(m) {
        Ok(v) => minijinja::Value::from(minijinja::value::Serde(v)),
        Err(_) => minijinja::Value::from(()),
    }).collect();
    let ctx: BTreeMap<&str, minijinja::Value> = BTreeMap::from([
        ("messages", minijinja::Value::from(list)),
        ("add_generation_prompt", minijinja::Value::from(add_generation_prompt)),
        ("bos_token", minijinja::Value::from(bos)),
        ("eos_token", minijinja::Value::from(eos)),
    ]);
    minijinja::Environment::new().render_str(template, ctx).ok()
}

/// The prompt a model receives: its resolved template rendered, else the family
/// fallback rendered, else the raw prompt.
pub open spec fn formatted_prompt(
    identity: Seq<char>,
    embedded: Seq<char>,
    resolved: Option<Seq<char>>,
    messages: Seq<Seq<char>>,
    prompt: Seq<char>,
) -> Seq<char> {
    let own = match resolved {
        Some(t) => rendered_template(t, messages, true, BOS_TOKEN@, EOS_TOKEN@),
        None => None,
    };
    match own {
        Some(out) => out,
        None => match rendered_template(family_template(template_family(identity, embedded)), messages, true, BOS_TOKEN@, EOS_TOKEN@) {
            Some(out) => out,
            None => prompt,
        },
    }
}

/// Does a registry entry hold the template of the model with this identity: its
/// id equals the identity up to ASCII case, or the identity contains it?
pub open spec fn template_owner(entry_id: Seq<char>, identity: Seq<char>) -> bool {
    crate::serving::audio_flow::eq_ignore_ascii(entry_id, identity) || contains(identity, entry_id)
}

/// Formats prompts with a model's chat template.
pub struct TemplateManager;

impl TemplateManager {
    /// The template used when the model's own one is missing or fails to render, chosen by
    /// the model identity and the raw embedded template (empty when there is none).
    pub fn fallback_template(model_identity: &str, raw_template: &str) -> (r: &'static str)
        ensures
            r@ == family_template(template_family(model_identity@, raw_template@)),
    {
        let arch = lower_chars(model_identity);
        let raw = chars_of(raw_template);
        if has_sub(&arch, "gemma4") || has_sub(&arch, "gemma-4") || has_sub(&raw, "<|turn") {
            GEMMA4_TEMPLATE
        } else if has_sub(&arch, "gemma") || has_sub(&raw, "start_of_turn") {
            GEMMA_TEMPLATE
        } else if has_sub(&arch, "llama") || has_sub(&raw, "start_header_id") {
            LLAMA_TEMPLATE
        } else {
            CHATML_TEMPLATE
        }
    }

    /// Formats a prompt for a model: its messages (a JSON message array, or the
    /// whole prompt as one user turn) rendered with `resolved_template`, the template
    /// found for it (its embedded one when that is not blank), else with the family
    /// fallback chosen by `embedded_template` (empty when it has none).
    pub fn format(
        &self,
        model_identity: &str,
        embedded_template: &str,
        resolved_template: Option<&str>,
        prompt: &str,
    ) -> (r: String)
        ensures
            r@ == formatted_prompt(
                model_identity@,
                embedded_template@,
                crate::text::opt_str_view(resolved_template),
                parsed_messages(prompt@),
                prompt@,
            ),
    {
        let msgs = parse_messages(prompt);
        let messages = &msgs;
        if let Some(t) = resolved_template {
            if let Some(out) = render_jinja(t, messages, true, BOS_TOKEN, EOS_TOKEN) {
                return out;
            }
        }
        let fallback = Self::fallback_template(model_identity, embedded_template);
        match render_jinja(fallback, messages, true, BOS_TOKEN, EOS_TOKEN) {
            Some(out) => out,
            None => prompt.to_owned(),
        }
    }

    /// A single user turn for mid-conversation prompts: rendered with the
    /// resolved template, else as plain `user` / `assistant` lines.
    pub fn format_turn(&self, resolved_template: Option<&str>, prompt: &str) -> (r: String)
        ensures
            r@ == (match resolved_template {
                Some(t) => match rendered_template(
                    t@,
                    seq![crate::json::json_string_object(seq![("role"@, "user"@), ("content"@, prompt@)])],
                    true,
                    BOS_TOKEN@,
                    EOS_TOKEN@,
                ) {
                    Some(out) => out,
                    None => "user\n"@ + prompt@ + "\nassistant\n"@,
                },
                None => "user\n"@ + prompt@ + "\nassistant\n"@,
            }),
    {
        if let Some(t) = resolved_template {
            let fields = vec![("role".to_owned(), "user".to_owned()), ("content".to_owned(), prompt.to_owned())];
            assert(crate::json::pair_views(fields@) =~= seq![("role"@, "user"@), ("content"@, prompt@)]);
            let msgs = vec![crate::json::object_of_strings(&fields)];
            assert(crate::text::string_views(msgs@) =~= seq![crate::json::json_string_object(seq![("role"@, "user"@), ("content"@, prompt@)])]);
            if let Some(out) = render_jinja(t, &msgs, true, BOS_TOKEN, EOS_TOKEN) {
                return out;
            }
        }
        let a = chars_of("user\n");
        let b = concat_chars(&a, &chars_of(prompt));
        string_of(&concat_str(&b, "\nassistant\n"))
    }

    /// The chat template a companion file of a model folder holds: for a `.json`
    /// file the string under its `chat_template` key, for any other file its whole
    /// content.
    pub fn companion_template(file_name: &str, content: &str) -> (r: Option<String>)
        ensures
            opt_view(r) == (if crate::text::ends_with(file_name@, ".json"@) {
                crate::json::json_str_at(content@, "chat_template"@)
            } else {
                Some(content@)
            }),
    {
        let f = chars_of(file_name);
        if crate::text::has_suffix(&f, ".json") {
            str_at(content, "chat_template")
        } else {
            Some(content.to_owned())
        }
    }

    /// Does the registry entry `entry_id` hold the template of `model_identity`?
    pub fn is_template_owner(entry_id: &str, model_identity: &str) -> (r: bool)
        ensures
            r == template_owner(entry_id@, model_identity@),
    {
        let e = chars_of(entry_id);
        let i = chars_of(model_identity);
        crate::serving::audio_flow::eq_ignore_ascii_chars(&e, &i) || crate::text::has_sub_chars(&i, &e)
    }
}

} // verus!
