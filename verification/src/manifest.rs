//! Model manifests as listed by the remote registry (assets and defaults), and
//! how documents are read for ingestion.
use vstd::prelude::*;
use crate::text::{chars_of, concat_chars, concat_str, eq_str, string_of};

verus! {

/// A downloadable asset of a model.
pub struct ModelAsset {
    pub name: String,
    pub url: String,
}

/// Context window of a manifest that names none.
pub fn default_context() -> (r: String)
    ensures
        r@ == "8k"@,
{
    "8k".to_owned()
}

/// Category of a manifest that names none.
pub fn default_category() -> (r: String)
    ensures
        r@ == "chat"@,
{
    "chat".to_owned()
}

/// Native document ingestion (text extraction, chunking and embedding run outside).
pub struct DocumentIngestor;

/// How a document is read, by its extension.
#[derive(Debug, Clone, Copy, PartialEq, Eq, Structural)]
pub enum DocumentKind {
    Image,
    Audio,
    Pdf,
    Docx,
    Text,
}

/// Kind of a document by its lower-cased extension.
pub open spec fn document_kind_spec(ext: Seq<char>) -> DocumentKind {
    let e = crate::text::lowercase(ext);
    if e == "png"@ || e == "jpg"@ || e == "jpeg"@ || e == "webp"@ {
        DocumentKind::Image
    } else if e == "mp3"@ || e == "wav"@ || e == "flac"@ || e == "ogg"@ {
        DocumentKind::Audio
    } else if e == "pdf"@ {
        DocumentKind::Pdf
    } else if e == "docx"@ {
        DocumentKind::Docx
    } else {
        DocumentKind::Text
    }
}

/// Text a PDF gives: its extracted text, or the visual placeholder when none
/// could be extracted (a scanned document).
pub open spec fn pdf_text_spec(extracted: Seq<char>) -> Seq<char> {
    if crate::text::trim(extracted).len() == 0 { "Visual RAG processing placeholder..."@ } else { extracted }
}

impl DocumentIngestor {
    pub fn new() -> (r: Self)
        ensures
            r == DocumentIngestor,
    {
        DocumentIngestor
    }

    pub fn document_kind(extension: &str) -> (r: DocumentKind)
        ensures
            r == document_kind_spec(extension@),
    {
        let e = crate::text::lower_chars(extension);
        if eq_str(&e, "png") || eq_str(&e, "jpg") || eq_str(&e, "jpeg") || eq_str(&e, "webp") {
            DocumentKind::Image
        } else if eq_str(&e, "mp3") || eq_str(&e, "wav") || eq_str(&e, "flac") || eq_str(&e, "ogg") {
            DocumentKind::Audio
        } else if eq_str(&e, "pdf") {
            DocumentKind::Pdf
        } else if eq_str(&e, "docx") {
            DocumentKind::Docx
        } else {
            DocumentKind::Text
        }
    }

    pub fn pdf_text(extracted: String) -> (r: String)
        ensures
            r@ == pdf_text_spec(extracted@),
    {
        let c = chars_of(extracted.as_str());
        if crate::text::trim_chars(&c).len() == 0 {
            "Visual RAG processing placeholder...".to_owned()
        } else {
            extracted
        }
    }

    /// Transcript text an audio document stands for.
    pub fn audio_transcript(file_path: &str) -> (r: String)
        ensures
            r@ == "[AUDIO_TRANSCRIPT] The user said this in "@ + file_path@,
    {
        let a = chars_of("[AUDIO_TRANSCRIPT] The user said this in ");
        string_of(&concat_chars(&a, &chars_of(file_path)))
    }

    /// Text a DOCX document stands for.
    pub fn docx_text() -> (r: String)
        ensures
            r@ == "Extracted text from DOCX would go here."@,
    {
        "Extracted text from DOCX would go here.".to_owned()
    }

    /// Marker of an image document: `[IMAGE_EMBEDDING:<path>]` when it was
    /// embedded, `[IMAGE:<path>]` otherwise.
    pub fn image_marker(display_path: &str, embedded: bool) -> (r: String)
        ensures
            r@ == (if embedded { "[IMAGE_EMBEDDING:"@ } else { "[IMAGE:"@ }) + display_path@ + "]"@,
    {
        let a = if embedded { chars_of("[IMAGE_EMBEDDING:") } else { chars_of("[IMAGE:") };
        let b = concat_chars(&a, &chars_of(display_path));
        string_of(&concat_str(&b, "]"))
    }
}

} // verus!
