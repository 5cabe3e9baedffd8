//! Chat message content: plain text or a list of parts (text, image URL, audio URL,
//! inline audio), and its flattening into one prompt string with media markers.
use vstd::prelude::*;
use crate::text::{chars_of, concat_chars, concat_str, is_ws_exec, string_of, trail_ws};

verus! {

/// How a temporary chat keeps its history.
#[derive(Debug, Clone, Copy, PartialEq, Eq, Structural)]
pub enum TemporaryChatMode {
    Lite,
    Strict,
}

/// A media reference by URL.
pub struct MediaUrlContent {
    pub url: String,
}

/// Inline audio: base64 data and its format.
pub struct InputAudioContent {
    pub data: String,
    pub format: String,
}

/// Format of inline audio when none is given.
pub fn default_audio_format() -> (r: String)
    ensures
        r@ == "wav"@,
{
    "wav".to_owned()
}

/// One part of a multi-part message.
pub enum ContentPart {
    Text { text: String },
    ImageUrl { image_url: MediaUrlContent },
    AudioUrl { audio_url: MediaUrlContent },
    InputAudio { input_audio: InputAudioContent },
}

/// The content of a chat message.
pub enum MessageContent {
    Text(String),
    Array(Vec<ContentPart>),
}

/// A chat message as received.
pub struct ExternalMessage {
    pub role: String,
    pub content: MessageContent,
}

impl Default for MessageContent {
    fn default() -> (r: Self)
        ensures
            r matches MessageContent::Text(t) && t@.len() == 0,
    {
        MessageContent::Text(String::new())
    }
}

/// Where a media part is fetched from: its URL, or for inline audio the data URI
/// `data:audio/<format>;base64,<data>`.  Text parts have none.
pub open spec fn media_source(p: ContentPart) -> Option<Seq<char>> {
    match p {
        ContentPart::Text { .. } => None,
        ContentPart::ImageUrl { image_url } => Some(image_url.url@),
        ContentPart::AudioUrl { audio_url } => Some(audio_url.url@),
        ContentPart::InputAudio { input_audio } => Some(
            "data:audio/"@ + input_audio.format@ + ";base64,"@ + input_audio.data@,
        ),
    }
}

/// The media marker for a resolved local path.
pub open spec fn media_marker(kind: Seq<char>, path: Seq<char>) -> Seq<char> {
    "<cluaiz_media type=\""@ + kind + "\" url=\""@ + path + "\" />\n"@
}

/// The prompt line of a part; `resolved` is the local path its media was stored at,
/// `None` when resolution failed (the source itself is used then).
pub open spec fn part_line(p: ContentPart, resolved: Option<String>) -> Seq<char> {
    let path = match resolved {
        Some(l) => l@,
        None => match media_source(p) {
            Some(s) => s,
            None => Seq::empty(),
        },
    };
    match p {
        ContentPart::Text { text } => text@ + "\n"@,
        ContentPart::ImageUrl { .. } => media_marker("image"@, path),
        ContentPart::AudioUrl { .. } => media_marker("audio"@, path),
        ContentPart::InputAudio { .. } => media_marker("audio"@, path),
    }
}

/// Lines of the first `n` parts, concatenated.
pub open spec fn parts_text(parts: Seq<ContentPart>, resolved: Seq<Option<String>>, n: int) -> Seq<char>
    decreases n,
{
    if n <= 0 {
        Seq::empty()
    } else {
        parts_text(parts, resolved, n - 1) + part_line(parts[n - 1], resolved[n - 1])
    }
}

/// `s` without trailing white space (`str::trim_end`).
pub open spec fn trim_end(s: Seq<char>) -> Seq<char> {
    s.subrange(0, s.len() - trail_ws(s))
}

/// The flattened prompt text of a message.
pub open spec fn flattened(c: MessageContent, resolved: Seq<Option<String>>) -> Seq<char> {
    match c {
        MessageContent::Text(t) => t@,
        MessageContent::Array(parts) => trim_end(parts_text(parts@, resolved, parts@.len() as int)),
    }
}

fn trim_end_chars(s: &[char]) -> (r: Vec<char>)
    ensures
        r@ == trim_end(s@),
{
    let mut end = s.len();
    assert(s@.subrange(0, end as int) =~= s@);
    while end > 0 && is_ws_exec(s[end - 1])
        invariant
            end <= s@.len(),
            trail_ws(s@) == (s@.len() - end) + trail_ws(s@.subrange(0, end as int)),
        decreases end,
    {
        proof {
            let t = s@.subrange(0, end as int);
            assert(t.drop_last() =~= s@.subrange(0, end - 1));
        }
        end = end - 1;
    }
    proof {
        let t = s@.subrange(0, end as int);
        assert(trail_ws(t) == 0);
    }
    crate::text::slice_copy(s, 0, end)
}

impl ContentPart {
    /// Where this part's media is fetched from (none for text).
    pub fn media_source(&self) -> (r: Option<String>)
        ensures
            match r {
                Some(s) => media_source(*self) == Some(s@),
                None => media_source(*self) is None,
            },
    {
        match self {
            ContentPart::Text { .. } => None,
            ContentPart::ImageUrl { image_url } => Some(image_url.url.clone()),
            ContentPart::AudioUrl { audio_url } => Some(audio_url.url.clone()),
            ContentPart::InputAudio { input_audio } => {
                let a = chars_of("data:audio/");
                let b = concat_chars(&a, &chars_of(input_audio.format.as_str()));
                let c = concat_str(&b, ";base64,");
                let d = concat_chars(&c, &chars_of(input_audio.data.as_str()));
                Some(string_of(&d))
            },
        }
    }

    fn line(&self, resolved: &Option<String>) -> (r: Vec<char>)
        ensures
            r@ == part_line(*self, *resolved),
    {
        let path: Vec<char> = match resolved {
            Some(l) => chars_of(l.as_str()),
            None => match self.media_source() {
                Some(s) => chars_of(s.as_str()),
                None => Vec::new(),
            },
        };
        match self {
            ContentPart::Text { text } => concat_str(&chars_of(text.as_str()), "\n"),
            ContentPart::ImageUrl { .. } => Self::marker("image", &path),
            ContentPart::AudioUrl { .. } => Self::marker("audio", &path),
            ContentPart::InputAudio { .. } => Self::marker("audio", &path),
        }
    }

    fn marker(kind: &str, path: &[char]) -> (r: Vec<char>)
        ensures
            r@ == media_marker(kind@, path@),
    {
        let a = chars_of("<cluaiz_media type=\"");
        let b = concat_chars(&a, &chars_of(kind));
        let c = concat_str(&b, "\" url=\"");
        let d = concat_chars(&c, path);
        concat_str(&d, "\" />\n")
    }
}

impl MessageContent {
    /// The message as one prompt string: text as is; parts as lines (text followed by
    /// a newline, media as `<cluaiz_media type=".." url=".." />` markers) with trailing
    /// white space removed.  `resolved[i]` is the local path part `i`'s media was
    /// stored at, or `None` when it could not be resolved (its source is used then).
    pub fn flatten_resolved(&self, resolved: &Vec<Option<String>>) -> (r: String)
        requires
            self matches MessageContent::Array(parts) ==> resolved@.len() == parts@.len(),
        ensures
            r@ == flattened(*self, resolved@),
    {
        match self {
            MessageContent::Text(t) => t.clone(),
            MessageContent::Array(parts) => {
                let mut out: Vec<char> = Vec::new();
                let mut i: usize = 0;
                while i < parts.len()
                    invariant
                        i <= parts@.len(),
                        resolved@.len() == parts@.len(),
                        out@ == parts_text(parts@, resolved@, i as int),
                    decreases parts.len() - i,
                {
                    let l = parts[i].line(&resolved[i]);
                    out = concat_chars(&out, &l);
                    i = i + 1;
                }
                string_of(&trim_end_chars(&out))
            },
        }
    }
}

} // verus!
