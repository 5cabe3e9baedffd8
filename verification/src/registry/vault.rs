//! Model vault: category folders under the models root and their API endpoints.
use vstd::prelude::*;
use crate::text::{
    eq_str, join_path, lower_chars, lowercase, path_join, replace_char, replace_char_chars,
    string_of,
};

verus! {

/// One model category: its name, folder, endpoint and description.
pub struct CategoryDescriptor {
    pub category: &'static str,
    pub path: String,
    pub endpoint: &'static str,
    pub description: &'static str,
}

/// The six categories in order: name (also the folder name), endpoint, description.
pub open spec fn vault_table() -> Seq<(Seq<char>, Seq<char>, Seq<char>)> {
    seq![
        ("chat"@, "/v1/chat/completions"@, "Pure Text & Multi-Turn Dialogue LLMs"@),
        ("vision-ingest"@, "/v1/ingest/file"@, "Document OCR & VLM Image-to-Text Parsers"@),
        (
            "vision-embedding"@,
            "/v1/embeddings/vision"@,
            "Vision Vector Embeddings (CLIP, SigLIP, ColPali)"@,
        ),
        (
            "text-embedding"@,
            "/v1/embeddings"@,
            "Text Vector Embeddings & Rerankers (BGE, Nomic)"@,
        ),
        ("tts"@, "/v1/audio/speech"@, "Text-to-Speech Audio Generation (Kokoro, Piper)"@),
        (
            "stt"@,
            "/v1/audio/transcriptions"@,
            "Speech-to-Text Audio Transcription (Whisper, SenseVoice)"@,
        ),
    ]
}

/// Normalized category key: lower-cased with `_` read as `-`.
pub open spec fn category_key(category: Seq<char>) -> Seq<char> {
    replace_char(lowercase(category), '_', '-')
}

/// Index in `vault_table` of a category key, if it is one of the six.
pub open spec fn category_index(key: Seq<char>) -> Option<int> {
    if key == "chat"@ {
        Some(0)
    } else if key == "vision-ingest"@ {
        Some(1)
    } else if key == "vision-embedding"@ {
        Some(2)
    } else if key == "text-embedding"@ {
        Some(3)
    } else if key == "tts"@ {
        Some(4)
    } else if key == "stt"@ {
        Some(5)
    } else {
        None
    }
}

/// The category key of an ASCII name: ASCII lower-cased, `_` read as `-`.
pub open spec fn ascii_category_key(category: Seq<char>) -> Seq<char> {
    replace_char(crate::text::ascii_lower(category), '_', '-')
}

/// Folder of a category key: known keys map to their own folder, any other key to
/// a folder of that name under the root.
pub open spec fn key_dir(root: Seq<char>, key: Seq<char>) -> Seq<char> {
    match category_index(key) {
        Some(i) => path_join(root, vault_table()[i].0),
        None => path_join(root, key),
    }
}

/// Endpoint of a category key; unknown keys are served by chat completions.
pub open spec fn key_endpoint(key: Seq<char>) -> Seq<char> {
    match category_index(key) {
        Some(i) => vault_table()[i].1,
        None => "/v1/chat/completions"@,
    }
}

/// Folder of a category.
pub open spec fn category_dir_spec(root: Seq<char>, category: Seq<char>) -> Seq<char> {
    key_dir(root, category_key(category))
}

/// Endpoint of a category.
pub open spec fn category_endpoint_spec(category: Seq<char>) -> Seq<char> {
    key_endpoint(category_key(category))
}

proof fn lemma_name_is_key(n: Seq<char>)
    requires
        forall|i: int| 0 <= i < n.len() ==> ('a' <= #[trigger] n[i] <= 'z' || n[i] == '-'),
    ensures
        crate::text::is_ascii_text(n),
        ascii_category_key(n) == n,
{
    assert(ascii_category_key(n) =~= n);
}

/// The descriptors agree with the resolvers: each category name of the table is
/// ASCII and its own key, so `resolve_category_dir` and `resolve_category_endpoint`
/// give for it the folder and endpoint that `category_descriptors` lists.
pub proof fn lemma_descriptors_agree_with_resolvers(root: Seq<char>, i: int)
    requires
        0 <= i < 6,
    ensures
        crate::text::is_ascii_text(vault_table()[i].0),
        key_dir(root, ascii_category_key(vault_table()[i].0)) == path_join(root, vault_table()[i].0),
        key_endpoint(ascii_category_key(vault_table()[i].0)) == vault_table()[i].1,
{
    reveal_strlit("chat");
    reveal_strlit("vision-ingest");
    reveal_strlit("vision-embedding");
    reveal_strlit("text-embedding");
    reveal_strlit("tts");
    reveal_strlit("stt");
    let n = vault_table()[i].0;
    lemma_name_is_key(n);
    let names = seq!["chat"@, "vision-ingest"@, "vision-embedding"@, "text-embedding"@, "tts"@, "stt"@];
    assert(n == names[i]);
    assert forall|j: int| 0 <= j < i implies names[j] != n by {
        if names[j].len() == n.len() {
            assert(names[j][0] != n[0]);
        }
    }
}

pub struct ModelVault;

impl ModelVault {
    pub fn chat_dir(root: &str) -> (r: String)
        ensures
            r@ == path_join(root@, "chat"@),
    {
        join_path(root, "chat")
    }

    pub fn chat_endpoint() -> (r: &'static str)
        ensures
            r@ == "/v1/chat/completions"@,
    {
        "/v1/chat/completions"
    }

    pub fn vision_ingest_dir(root: &str) -> (r: String)
        ensures
            r@ == path_join(root@, "vision-ingest"@),
    {
        join_path(root, "vision-ingest")
    }

    pub fn vision_ingest_endpoint() -> (r: &'static str)
        ensures
            r@ == "/v1/ingest/file"@,
    {
        "/v1/ingest/file"
    }

    pub fn vision_embedding_dir(root: &str) -> (r: String)
        ensures
            r@ == path_join(root@, "vision-embedding"@),
    {
        join_path(root, "vision-embedding")
    }

    pub fn vision_embedding_endpoint() -> (r: &'static str)
        ensures
            r@ == "/v1/embeddings/vision"@,
    {
        "/v1/embeddings/vision"
    }

    pub fn text_embedding_dir(root: &str) -> (r: String)
        ensures
            r@ == path_join(root@, "text-embedding"@),
    {
        join_path(root, "text-embedding")
    }

    pub fn text_embedding_endpoint() -> (r: &'static str)
        ensures
            r@ == "/v1/embeddings"@,
    {
        "/v1/embeddings"
    }

    pub fn tts_dir(root: &str) -> (r: String)
        ensures
            r@ == path_join(root@, "tts"@),
    {
        join_path(root, "tts")
    }

    pub fn tts_endpoint() -> (r: &'static str)
        ensures
            r@ == "/v1/audio/speech"@,
    {
        "/v1/audio/speech"
    }

    pub fn stt_dir(root: &str) -> (r: String)
        ensures
            r@ == path_join(root@, "stt"@),
    {
        join_path(root, "stt")
    }

    pub fn stt_endpoint() -> (r: &'static str)
        ensures
            r@ == "/v1/audio/transcriptions"@,
    {
        "/v1/audio/transcriptions"
    }

    /// The six category descriptors, in table order, with folders under `root`: each
    /// descriptor's folder and endpoint are what `resolve_category_dir` and
    /// `resolve_category_endpoint` give for its category.
    pub fn category_descriptors(root: &str) -> (r: Vec<CategoryDescriptor>)
        ensures
            r@.len() == 6,
            forall|i: int|
                0 <= i < 6 ==> (#[trigger] r@[i]).category@ == vault_table()[i].0 && r@[i].path@
                    == path_join(root@, vault_table()[i].0) && r@[i].endpoint@ == vault_table()[i].1
                    && r@[i].description@ == vault_table()[i].2,
            forall|i: int|
                0 <= i < 6 ==> (#[trigger] r@[i]).path@ == category_dir_spec(root@, r@[i].category@)
                    && r@[i].endpoint@ == category_endpoint_spec(r@[i].category@),
    {
        proof {
            lemma_descriptors_agree_with_resolvers(root@, 0);
            lemma_descriptors_agree_with_resolvers(root@, 1);
            lemma_descriptors_agree_with_resolvers(root@, 2);
            lemma_descriptors_agree_with_resolvers(root@, 3);
            lemma_descriptors_agree_with_resolvers(root@, 4);
            lemma_descriptors_agree_with_resolvers(root@, 5);
        }
        let r = vec![
            CategoryDescriptor {
                category: "chat",
                path: Self::resolve_category_dir(root, "chat"),
                endpoint: Self::resolve_category_endpoint("chat"),
                description: "Pure Text & Multi-Turn Dialogue LLMs",
            },
            CategoryDescriptor {
                category: "vision-ingest",
                path: Self::resolve_category_dir(root, "vision-ingest"),
                endpoint: Self::resolve_category_endpoint("vision-ingest"),
                description: "Document OCR & VLM Image-to-Text Parsers",
            },
            CategoryDescriptor {
                category: "vision-embedding",
                path: Self::resolve_category_dir(root, "vision-embedding"),
                endpoint: Self::resolve_category_endpoint("vision-embedding"),
                description: "Vision Vector Embeddings (CLIP, SigLIP, ColPali)",
            },
            CategoryDescriptor {
                category: "text-embedding",
                path: Self::resolve_category_dir(root, "text-embedding"),
                endpoint: Self::resolve_category_endpoint("text-embedding"),
                description: "Text Vector Embeddings & Rerankers (BGE, Nomic)",
            },
            CategoryDescriptor {
                category: "tts",
                path: Self::resolve_category_dir(root, "tts"),
                endpoint: Self::resolve_category_endpoint("tts"),
                description: "Text-to-Speech Audio Generation (Kokoro, Piper)",
            },
            CategoryDescriptor {
                category: "stt",
                path: Self::resolve_category_dir(root, "stt"),
                endpoint: Self::resolve_category_endpoint("stt"),
                description: "Speech-to-Text Audio Transcription (Whisper, SenseVoice)",
            },
        ];
        r
    }

    /// Category names paired with their folders under `root`, for scanning.
    pub fn category_dirs(root: &str) -> (r: Vec<(&'static str, String)>)
        ensures
            r@.len() == 6,
            forall|i: int|
                0 <= i < 6 ==> (#[trigger] r@[i]).0@ == vault_table()[i].0 && r@[i].1@ == path_join(
                    root@,
                    vault_table()[i].0,
                ),
            forall|i: int| 0 <= i < 6 ==> (#[trigger] r@[i]).1@ == category_dir_spec(root@, r@[i].0@),
    {
        proof {
            lemma_descriptors_agree_with_resolvers(root@, 0);
            lemma_descriptors_agree_with_resolvers(root@, 1);
            lemma_descriptors_agree_with_resolvers(root@, 2);
            lemma_descriptors_agree_with_resolvers(root@, 3);
            lemma_descriptors_agree_with_resolvers(root@, 4);
            lemma_descriptors_agree_with_resolvers(root@, 5);
        }
        vec![
            ("chat", Self::resolve_category_dir(root, "chat")),
            ("vision-ingest", Self::resolve_category_dir(root, "vision-ingest")),
            ("vision-embedding", Self::resolve_category_dir(root, "vision-embedding")),
            ("text-embedding", Self::resolve_category_dir(root, "text-embedding")),
            ("tts", Self::resolve_category_dir(root, "tts")),
            ("stt", Self::resolve_category_dir(root, "stt")),
        ]
    }

    /// Folder of a category name (`_` read as `-`, case-insensitive).
    pub fn resolve_category_dir(root: &str, category: &str) -> (r: String)
        ensures
            r@ == category_dir_spec(root@, category@),
            crate::text::is_ascii_text(category@) ==> r@ == key_dir(root@, ascii_category_key(category@)),
    {
        let lower = lower_chars(category);
        let key = replace_char_chars(&lower, '_', '-');
        if eq_str(&key, "chat") {
            Self::chat_dir(root)
        } else if eq_str(&key, "vision-ingest") {
            Self::vision_ingest_dir(root)
        } else if eq_str(&key, "vision-embedding") {
            Self::vision_embedding_dir(root)
        } else if eq_str(&key, "text-embedding") {
            Self::text_embedding_dir(root)
        } else if eq_str(&key, "tts") {
            Self::tts_dir(root)
        } else if eq_str(&key, "stt") {
            Self::stt_dir(root)
        } else {
            let k = string_of(&key);
            join_path(root, k.as_str())
        }
    }

    /// Endpoint of a category name (`_` read as `-`, case-insensitive).
    pub fn resolve_category_endpoint(category: &str) -> (r: &'static str)
        ensures
            r@ == category_endpoint_spec(category@),
            crate::text::is_ascii_text(category@) ==> r@ == key_endpoint(ascii_category_key(category@)),
    {
        let lower = lower_chars(category);
        let key = replace_char_chars(&lower, '_', '-');
        if eq_str(&key, "chat") {
            Self::chat_endpoint()
        } else if eq_str(&key, "vision-ingest") {
            Self::vision_ingest_endpoint()
        } else if eq_str(&key, "vision-embedding") {
            Self::vision_embedding_endpoint()
        } else if eq_str(&key, "text-embedding") {
            Self::text_embedding_endpoint()
        } else if eq_str(&key, "tts") {
            Self::tts_endpoint()
        } else if eq_str(&key, "stt") {
            Self::stt_endpoint()
        } else {
            "/v1/chat/completions"
        }
    }
}

} // verus!
