//! Audio execution: input classification, task and model resolution over the
//! installed models, the modality guardrail, ONNX candidate ordering, prompt
//! assembly and the interpretation of what the engine produced.
use vstd::prelude::*;
use crate::text::{
    chars_of, concat_chars, concat_str, contains, contains_any, ends_with_any, eq_str, has_any_sub,
    has_any_suffix, has_prefix, has_sub, join_path, lower_chars, lowercase, or_else, path_file_name,
    path_join, replace_all, replace_char, replace_char_chars, replace_str_chars, starts_with,
    string_of, trim, trim_chars,
};

verus! {

/// File endings that mark audio data.
pub const AUDIO_FILE_ENDINGS: [&'static str; 6] = [".webm", ".wav", ".mp3", ".m4a", ".flac", ".ogg"];

/// Name markers of the main speech-synthesis graphs.
pub const TTS_MAIN_MARKERS: [&'static str; 5] = ["flow", "estimator", "generator", "tts", "synth"];

/// Name markers of speaker-extractor and embedding graphs.
pub const TTS_HELPER_MARKERS: [&'static str; 4] = ["campplus", "speaker", "embed", "encoder"];

/// Name markers of text-to-speech model ids.
pub const TTS_ID_MARKERS: [&'static str; 3] = ["kokoro", "piper", "vits"];

/// Engine errors after which the next ONNX candidate is tried.
pub const RETRYABLE_ERROR_MARKERS: [&'static str; 4] = ["Invalid rank", "failed", "Graph", "No text prompt"];

/// A task name as compared: lower-cased, `-` read as `_`.
pub open spec fn norm_task(t: Seq<char>) -> Seq<char> {
    replace_char(lowercase(t), '-', '_')
}

/// Does the task list hold `target` (compared as normalized names)?
pub open spec fn supports(tasks: Seq<Seq<char>>, target: Seq<char>) -> bool {
    exists|j: int| 0 <= j < tasks.len() && norm_task(#[trigger] tasks[j]) == target
}

// ───────────────────────── input and task ─────────────────────────

/// Is the input audio: an audio source type, or data that names an audio file
/// or is an audio data URI?
pub open spec fn is_audio_input_spec(source_type: Seq<char>, data: Seq<char>) -> bool {
    let d = lowercase(trim(data));
    let t = lowercase(source_type);
    ||| t == "url"@ || t == "base64"@ || t == "file"@ || t == "audio"@
    ||| ends_with_any(d, AUDIO_FILE_ENDINGS@)
    ||| starts_with(d, "data:audio/"@)
}

/// Is the input text: not audio, and of source type `text`?
pub open spec fn is_text_input_spec(source_type: Seq<char>, data: Seq<char>) -> bool {
    !is_audio_input_spec(source_type, data) && lowercase(source_type) == "text"@
}

/// Classifies an input source: (is audio, is text).
pub fn classify_audio_input(source_type: &str, data: &str) -> (r: (bool, bool))
    ensures
        r.0 == is_audio_input_spec(source_type@, data@),
        r.1 == is_text_input_spec(source_type@, data@),
{
    let t = lower_chars(source_type);
    let dc = chars_of(data);
    let dt = string_of(&trim_chars(&dc));
    let d = lower_chars(dt.as_str());
    let typed = eq_str(&t, "url") || eq_str(&t, "base64") || eq_str(&t, "file") || eq_str(&t, "audio");
    let file_like = has_any_suffix(&d, &AUDIO_FILE_ENDINGS) || has_prefix(&d, "data:audio/");
    let is_audio = typed || file_like;
    let is_text = !is_audio && eq_str(&t, "text");
    (is_audio, is_text)
}

/// The task asked for: trimmed, lower-cased, `-` read as `_`; `auto` when none is given.
pub open spec fn requested_task_spec(task: Option<Seq<char>>) -> Seq<char> {
    norm_task(trim(or_else(task, "auto"@)))
}

pub fn requested_task(task: Option<&str>) -> (r: String)
    ensures
        r@ == requested_task_spec(crate::text::opt_str_view(task)),
{
    let raw: &str = match task {
        Some(t) => t,
        None => "auto",
    };
    let c = chars_of(raw);
    let t = string_of(&trim_chars(&c));
    let l = lower_chars(t.as_str());
    string_of(&replace_char_chars(&l, '-', '_'))
}

/// The task to serve: the requested one, or for `auto` (or nothing) text-to-speech
/// on text input and speech-to-text otherwise.
pub open spec fn target_task_spec(requested: Seq<char>, is_text: bool) -> Seq<char> {
    if requested.len() == 0 || requested == "auto"@ {
        if is_text { "text_to_speech"@ } else { "speech_to_text"@ }
    } else {
        requested
    }
}

pub fn target_task(requested: &str, is_text: bool) -> (r: String)
    ensures
        r@ == target_task_spec(requested@, is_text),
{
    let c = chars_of(requested);
    if c.len() == 0 || eq_str(&c, "auto") {
        if is_text { "text_to_speech".to_owned() } else { "speech_to_text".to_owned() }
    } else {
        requested.to_owned()
    }
}

pub open spec fn is_stt_target(t: Seq<char>) -> bool {
    t == "speech_to_text"@ || t == "speech_translation"@
}

pub open spec fn is_tts_target(t: Seq<char>) -> bool {
    t == "text_to_speech"@ || t == "music_generation"@
}

// ───────────────────────── installed models ─────────────────────────

/// An installed model as the audio handler sees it: its registry key, id, weight
/// format, category and tasks.
pub struct AudioModelEntry {
    pub key: String,
    pub id: String,
    pub format_type: String,
    pub category: String,
    pub supported_tasks: Vec<String>,
}

pub struct EntryView {
    pub key: Seq<char>,
    pub id: Seq<char>,
    pub format_type: Seq<char>,
    pub category: Seq<char>,
    pub tasks: Seq<Seq<char>>,
}

impl View for AudioModelEntry {
    type V = EntryView;

    open spec fn view(&self) -> EntryView {
        EntryView {
            key: self.key@,
            id: self.id@,
            format_type: self.format_type@,
            category: self.category@,
            tasks: crate::text::string_views(self.supported_tasks@),
        }
    }
}

pub open spec fn entry_views(es: Seq<AudioModelEntry>) -> Seq<EntryView> {
    es.map_values(|e: AudioModelEntry| e@)
}

/// Normalized task test over a list of strings.
fn supports_task(tasks: &Vec<String>, target: &[char]) -> (r: bool)
    ensures
        r == supports(crate::text::string_views(tasks@), target@),
{
    let ghost ts = crate::text::string_views(tasks@);
    let mut j: usize = 0;
    while j < tasks.len()
        invariant
            ts == crate::text::string_views(tasks@),
            j <= tasks@.len(),
            forall|k: int| 0 <= k < j ==> norm_task(#[trigger] ts[k]) != target@,
        decreases tasks.len() - j,
    {
        let l = lower_chars(tasks[j].as_str());
        let n = replace_char_chars(&l, '-', '_');
        assert(ts[j as int] == tasks@[j as int]@);
        if crate::text::chars_eq(&n, target) {
            return true;
        }
        j = j + 1;
    }
    false
}

/// ASCII case folding of one character (`char::eq_ignore_ascii_case`).
pub open spec fn ascii_fold(c: char) -> int {
    if 65 <= c as int <= 90 { c as int + 32 } else { c as int }
}

/// `str::eq_ignore_ascii_case`.
pub open spec fn eq_ignore_ascii(a: Seq<char>, b: Seq<char>) -> bool {
    a.len() == b.len() && forall|i: int| 0 <= i < a.len() ==> ascii_fold(#[trigger] a[i]) == ascii_fold(b[i])
}

fn fold_code(c: char) -> (r: u32)
    ensures
        r == ascii_fold(c),
{
    let x: u32 = c as u32;
    if 65 <= x && x <= 90 { x + 32 } else { x }
}

pub fn eq_ignore_ascii_chars(a: &[char], b: &[char]) -> (r: bool)
    ensures
        r == eq_ignore_ascii(a@, b@),
{
    if a.len() != b.len() {
        return false;
    }
    let mut i: usize = 0;
    while i < a.len()
        invariant
            a@.len() == b@.len(),
            i <= a@.len(),
            forall|k: int| 0 <= k < i ==> ascii_fold(#[trigger] a@[k]) == ascii_fold(b@[k]),
        decreases a.len() - i,
    {
        if fold_code(a[i]) != fold_code(b[i]) {
            return false;
        }
        i = i + 1;
    }
    true
}

/// An explicit model is asked for: given, not blank, and not `auto`.
pub open spec fn explicit_model_spec(model: Option<Seq<char>>) -> bool {
    match model {
        Some(m) => trim(m).len() > 0 && m != "auto"@,
        None => false,
    }
}

pub fn is_explicit_model(model: Option<&str>) -> (r: bool)
    ensures
        r == explicit_model_spec(crate::text::opt_str_view(model)),
{
    match model {
        Some(m) => {
            let c = chars_of(m);
            trim_chars(&c).len() > 0 && !eq_str(&c, "auto")
        },
        None => false,
    }
}

/// First key equal to `m` up to ASCII case, from `k` on.
pub open spec fn key_eq_from(es: Seq<EntryView>, m: Seq<char>, k: int) -> Option<int>
    decreases es.len() - k,
{
    if k >= es.len() {
        None
    } else if eq_ignore_ascii(es[k].key, m) {
        Some(k)
    } else {
        key_eq_from(es, m, k + 1)
    }
}

/// First key whose lower case contains the lower case of `m`, from `k` on.
pub open spec fn key_sub_from(es: Seq<EntryView>, m: Seq<char>, k: int) -> Option<int>
    decreases es.len() - k,
{
    if k >= es.len() {
        None
    } else if contains(lowercase(es[k].key), lowercase(m)) {
        Some(k)
    } else {
        key_sub_from(es, m, k + 1)
    }
}

/// The model an explicit name selects: the first key equal to it up to ASCII
/// case, else the first key that contains it (both lower-cased).
pub open spec fn model_by_name_spec(es: Seq<EntryView>, m: Seq<char>) -> Option<int> {
    match key_eq_from(es, m, 0) {
        Some(k) => Some(k),
        None => key_sub_from(es, m, 0),
    }
}

pub fn find_model_by_name(entries: &Vec<AudioModelEntry>, m: &str) -> (r: Option<usize>)
    ensures
        match r {
            Some(k) => k < entries@.len() && model_by_name_spec(entry_views(entries@), m@) == Some(k as int),
            None => model_by_name_spec(entry_views(entries@), m@) is None,
        },
{
    let ghost es = entry_views(entries@);
    let mc = chars_of(m);
    let mut i: usize = 0;
    while i < entries.len()
        invariant
            es == entry_views(entries@),
            mc@ == m@,
            i <= entries@.len(),
            key_eq_from(es, m@, 0) == key_eq_from(es, m@, i as int),
        decreases entries.len() - i,
    {
        let kc = chars_of(entries[i].key.as_str());
        assert(es[i as int].key == entries@[i as int].key@);
        if eq_ignore_ascii_chars(&kc, &mc) {
            return Some(i);
        }
        i = i + 1;
    }
    let ml = lower_chars(m);
    let mut j: usize = 0;
    while j < entries.len()
        invariant
            es == entry_views(entries@),
            key_eq_from(es, m@, 0) is None,
            ml@ == lowercase(m@),
            j <= entries@.len(),
            key_sub_from(es, m@, 0) == key_sub_from(es, m@, j as int),
        decreases entries.len() - j,
    {
        let kl = lower_chars(entries[j].key.as_str());
        assert(es[j as int].key == entries@[j as int].key@);
        if crate::text::has_sub_chars(&kl, &ml) {
            return Some(j);
        }
        j = j + 1;
    }
    None
}

/// First entry whose key is exactly `key`, from `k` on.
pub open spec fn key_index_from(es: Seq<EntryView>, key: Seq<char>, k: int) -> Option<int>
    decreases es.len() - k,
{
    if k >= es.len() {
        None
    } else if es[k].key == key {
        Some(k)
    } else {
        key_index_from(es, key, k + 1)
    }
}

proof fn lemma_key_index_from(es: Seq<EntryView>, key: Seq<char>, k: int)
    requires
        0 <= k,
        key_index_from(es, key, k) is Some,
    ensures
        k <= key_index_from(es, key, k)->0 < es.len(),
        es[key_index_from(es, key, k)->0].key == key,
    decreases es.len() - k,
{
    if k < es.len() && es[k].key != key {
        lemma_key_index_from(es, key, k + 1);
    }
}

/// The entry stored under `key`.
pub fn entry_by_key(entries: &Vec<AudioModelEntry>, key: &str) -> (r: Option<usize>)
    ensures
        match r {
            Some(k) => k < entries@.len() && key_index_from(entry_views(entries@), key@, 0) == Some(k as int),
            None => key_index_from(entry_views(entries@), key@, 0) is None,
        },
{
    let ghost es = entry_views(entries@);
    let kc = chars_of(key);
    let mut i: usize = 0;
    while i < entries.len()
        invariant
            es == entry_views(entries@),
            kc@ == key@,
            i <= entries@.len(),
            key_index_from(es, key@, 0) == key_index_from(es, key@, i as int),
        decreases entries.len() - i,
    {
        let c = chars_of(entries[i].key.as_str());
        assert(es[i as int].key == entries@[i as int].key@);
        if crate::text::chars_eq(&c, &kc) {
            return Some(i);
        }
        i = i + 1;
    }
    None
}

/// The three fallback searches for a default audio model, strictest first:
/// an ONNX model of the task's family (Whisper for speech-to-text; Kokoro,
/// Piper or VITS otherwise); any ONNX model with the task; an ONNX audio model
/// whose tasks fit the task's direction.
pub open spec fn stage_ok(e: EntryView, target: Seq<char>, stage: int) -> bool {
    let onnx = lowercase(e.format_type) == "onnx"@;
    if stage == 0 {
        onnx && (if is_stt_target(target) {
            contains(lowercase(e.id), "whisper"@)
        } else {
            contains_any(lowercase(e.id), TTS_ID_MARKERS@)
        }) && supports(e.tasks, target)
    } else if stage == 1 {
        onnx && supports(e.tasks, target)
    } else {
        onnx && e.category == "audio"@ && (if is_tts_target(target) {
            supports(e.tasks, "text_to_speech"@)
        } else if is_stt_target(target) {
            supports(e.tasks, "speech_to_text"@) || supports(e.tasks, "speech_translation"@)
        } else {
            true
        })
    }
}

pub open spec fn stage_from(es: Seq<EntryView>, target: Seq<char>, stage: int, k: int) -> Option<int>
    decreases es.len() - k,
{
    if k >= es.len() {
        None
    } else if stage_ok(es[k], target, stage) {
        Some(k)
    } else {
        stage_from(es, target, stage, k + 1)
    }
}

/// The audio slot names an installed model that serves the task.
pub open spec fn slot_serves(es: Seq<EntryView>, active: Option<Seq<char>>, target: Seq<char>) -> bool {
    match active {
        Some(a) => match key_index_from(es, a, 0) {
            Some(k) => supports(es[k].tasks, target),
            None => false,
        },
        None => false,
    }
}

/// The model id a request without an explicit model runs: the audio slot's model
/// when it is installed and serves the task, else the first hit of the three
/// searches; empty when nothing fits.
pub open spec fn default_audio_model_spec(es: Seq<EntryView>, active: Option<Seq<char>>, target: Seq<char>) -> Seq<char> {
    if slot_serves(es, active, target) {
        active->0
    } else {
        match stage_from(es, target, 0, 0) {
            Some(k) => es[k].id,
            None => match stage_from(es, target, 1, 0) {
                Some(k) => es[k].id,
                None => match stage_from(es, target, 2, 0) {
                    Some(k) => es[k].id,
                    None => Seq::empty(),
                },
            },
        }
    }
}

proof fn lemma_stage_from(es: Seq<EntryView>, target: Seq<char>, stage: int, k: int)
    requires
        0 <= k,
        stage_from(es, target, stage, k) is Some,
    ensures
        k <= stage_from(es, target, stage, k)->0 < es.len(),
        stage_ok(es[stage_from(es, target, stage, k)->0], target, stage),
    decreases es.len() - k,
{
    if k < es.len() && !stage_ok(es[k], target, stage) {
        lemma_stage_from(es, target, stage, k + 1);
    }
}

/// The installed entry the default choice lands on: the slot's entry, else the
/// first hit of the three searches.
pub open spec fn default_pick(es: Seq<EntryView>, active: Option<Seq<char>>, target: Seq<char>) -> Option<int> {
    if slot_serves(es, active, target) {
        key_index_from(es, active->0, 0)
    } else {
        match stage_from(es, target, 0, 0) {
            Some(k) => Some(k),
            None => match stage_from(es, target, 1, 0) {
                Some(k) => Some(k),
                None => stage_from(es, target, 2, 0),
            },
        }
    }
}

/// A model fits the direction of a task: for a synthesis target it serves the
/// target or text-to-speech; for a recognition target it serves the target,
/// speech-to-text or speech translation.
pub open spec fn fits_direction(tasks: Seq<Seq<char>>, target: Seq<char>) -> bool {
    &&& is_tts_target(target) ==> supports(tasks, target) || supports(tasks, "text_to_speech"@)
    &&& is_stt_target(target) ==> supports(tasks, target) || supports(tasks, "speech_to_text"@) || supports(
        tasks,
        "speech_translation"@,
    )
}

/// The default audio model never crosses directions: a request for speech
/// synthesis never gets a recognition-only model, nor the reverse.  The id chosen
/// is the slot's model id or the picked entry's id.
pub proof fn lemma_default_model_fits_direction(es: Seq<EntryView>, active: Option<Seq<char>>, target: Seq<char>)
    ensures
        default_pick(es, active, target) matches Some(k) ==> 0 <= k < es.len() && fits_direction(es[k].tasks, target),
        default_audio_model_spec(es, active, target) == match default_pick(es, active, target) {
            Some(k) => if slot_serves(es, active, target) { active->0 } else { es[k].id },
            None => Seq::<char>::empty(),
        },
{
    if slot_serves(es, active, target) {
        lemma_key_index_from(es, active->0, 0);
    } else {
        if stage_from(es, target, 0, 0) is Some {
            lemma_stage_from(es, target, 0, 0);
        } else if stage_from(es, target, 1, 0) is Some {
            lemma_stage_from(es, target, 1, 0);

        } else if stage_from(es, target, 2, 0) is Some {
            lemma_stage_from(es, target, 2, 0);
            reveal_strlit("text_to_speech");
            reveal_strlit("music_generation");
            reveal_strlit("speech_to_text");
            reveal_strlit("speech_translation");
            assert(!(is_tts_target(target) && is_stt_target(target))) by {
                assert("text_to_speech"@[0] != "speech_to_text"@[0]);
                assert("text_to_speech"@[0] != "speech_translation"@[0]);
                assert("music_generation"@[0] != "speech_to_text"@[0]);
                assert("music_generation"@[0] != "speech_translation"@[0]);
            }
            let k = stage_from(es, target, 2, 0)->0;
            assert(stage_ok(es[k], target, 2));
        }
    }
}

fn stage_ok_exec(e: &AudioModelEntry, target: &[char], stage: u8) -> (r: bool)
    requires
        stage <= 2,
    ensures
        r == stage_ok(e@, target@, stage as int),
{
    let fmt = lower_chars(e.format_type.as_str());
    let onnx = eq_str(&fmt, "onnx");
    if !onnx {
        return false;
    }
    let stt = eq_str(target, "speech_to_text") || eq_str(target, "speech_translation");
    let tts = eq_str(target, "text_to_speech") || eq_str(target, "music_generation");
    if stage == 0 {
        let idl = lower_chars(e.id.as_str());
        let family = if stt { has_sub(&idl, "whisper") } else { has_any_sub(&idl, &TTS_ID_MARKERS) };
        family && supports_task(&e.supported_tasks, target)
    } else if stage == 1 {
        supports_task(&e.supported_tasks, target)
    } else {
        let cat = chars_of(e.category.as_str());
        if !eq_str(&cat, "audio") {
            return false;
        }
        if tts {
            let t = chars_of("text_to_speech");
            supports_task(&e.supported_tasks, &t)
        } else if stt {
            let a = chars_of("speech_to_text");
            let b = chars_of("speech_translation");
            supports_task(&e.supported_tasks, &a) || supports_task(&e.supported_tasks, &b)
        } else {
            true
        }
    }
}

fn first_in_stage(entries: &Vec<AudioModelEntry>, target: &[char], stage: u8) -> (r: Option<usize>)
    requires
        stage <= 2,
    ensures
        match r {
            Some(k) => stage_from(entry_views(entries@), target@, stage as int, 0) == Some(k as int),
            None => stage_from(entry_views(entries@), target@, stage as int, 0) is None,
        },
{
    let ghost es = entry_views(entries@);
    let mut i: usize = 0;
    while i < entries.len()
        invariant
            es == entry_views(entries@),
            stage <= 2,
            i <= entries@.len(),
            stage_from(es, target@, stage as int, 0) == stage_from(es, target@, stage as int, i as int),
        decreases entries.len() - i,
    {
        assert(es[i as int] == entries@[i as int]@);
        if stage_ok_exec(&entries[i], target, stage) {
            return Some(i);
        }
        i = i + 1;
    }
    None
}

pub fn default_audio_model(entries: &Vec<AudioModelEntry>, active_id: Option<&str>, target: &str) -> (r: String)
    ensures
        r@ == default_audio_model_spec(entry_views(entries@), crate::text::opt_str_view(active_id), target@),
{
    let ghost es = entry_views(entries@);
    let tc = chars_of(target);
    if let Some(a) = active_id {
        if let Some(k) = entry_by_key(entries, a) {
            proof {
                lemma_key_index_from(es, a@, 0);
            }
            assert(es[k as int] == entries@[k as int]@);
            if supports_task(&entries[k].supported_tasks, &tc) {
                return a.to_owned();
            }
        }
    }
    let mut stage: u8 = 0;
    while stage < 3
        invariant
            es == entry_views(entries@),
            tc@ == target@,
            !slot_serves(es, crate::text::opt_str_view(active_id), target@),
            stage <= 3,
            stage > 0 ==> stage_from(es, target@, 0, 0) is None,
            stage > 1 ==> stage_from(es, target@, 1, 0) is None,
            stage > 2 ==> stage_from(es, target@, 2, 0) is None,
        decreases 3 - stage,
    {
        if let Some(k) = first_in_stage(entries, &tc, stage) {
            proof {
                lemma_stage_from(es, target@, stage as int, 0);
            }
            assert(es[k as int] == entries@[k as int]@);
            return entries[k].id.clone();
        }
        stage = stage + 1;
    }
    String::new()
}

/// The task run on the chosen model: an explicit request as given; otherwise
/// the target when the model serves it, else the model's first task, else the
/// target.
pub open spec fn resolved_task_spec(requested: Seq<char>, target: Seq<char>, tasks: Seq<Seq<char>>) -> Seq<char> {
    if requested != "auto"@ && requested.len() > 0 {
        requested
    } else if supports(tasks, target) {
        target
    } else if tasks.len() > 0 {
        tasks[0]
    } else {
        target
    }
}

pub fn resolve_task(requested: &str, target: &str, tasks: &Vec<String>) -> (r: String)
    ensures
        r@ == resolved_task_spec(requested@, target@, crate::text::string_views(tasks@)),
{
    let rc = chars_of(requested);
    if !eq_str(&rc, "auto") && rc.len() > 0 {
        return requested.to_owned();
    }
    let tc = chars_of(target);
    if supports_task(tasks, &tc) {
        target.to_owned()
    } else if tasks.len() > 0 {
        tasks[0].clone()
    } else {
        target.to_owned()
    }
}

/// Tasks that synthesize audio from text.
pub open spec fn is_tts_task(t: Seq<char>) -> bool {
    t == "text_to_speech"@ || t == "music_generation"@
}

/// Tasks that take audio in.
pub open spec fn is_stt_task(t: Seq<char>) -> bool {
    t == "speech_to_text"@ || t == "speech_translation"@ || t == "audio_classification"@
        || t == "speaker_diarization"@
}

pub fn is_tts_task_name(t: &str) -> (r: bool)
    ensures
        r == is_tts_task(t@),
{
    let c = chars_of(t);
    eq_str(&c, "text_to_speech") || eq_str(&c, "music_generation")
}

/// An input that does not fit the task's modality.
#[derive(Debug, Clone, Copy, PartialEq, Eq, Structural)]
pub enum ModalityError {
    /// A synthesis task was given an audio input.
    AudioForSynthesis,
    /// An audio-processing task was given a text input.
    TextForTranscription,
}

/// The modality guardrail.
pub fn check_modality(task: &str, is_audio: bool, is_text: bool) -> (r: Result<(), ModalityError>)
    ensures
        r == (if is_tts_task(task@) && is_audio {
            Err(ModalityError::AudioForSynthesis)
        } else if is_stt_task(task@) && is_text {
            Err(ModalityError::TextForTranscription)
        } else {
            Ok(())
        }),
{
    let c = chars_of(task);
    let tts = eq_str(&c, "text_to_speech") || eq_str(&c, "music_generation");
    let stt = eq_str(&c, "speech_to_text") || eq_str(&c, "speech_translation")
        || eq_str(&c, "audio_classification") || eq_str(&c, "speaker_diarization");
    if tts && is_audio {
        Err(ModalityError::AudioForSynthesis)
    } else if stt && is_text {
        Err(ModalityError::TextForTranscription)
    } else {
        Ok(())
    }
}

// ───────────────────────── ONNX candidates ─────────────────────────

/// `Path == Path`: component-wise equality of two paths.
pub uninterp spec fn path_eq(a: Seq<char>, b: Seq<char>) -> bool;

/// `Path::new(a) == Path::new(b)`; the result is named `path_eq`.
#[verifier::external_body]
fn same_path(a: &str, b: &str) -> (r: bool)
    ensures
        r == path_eq(a@, b@),
{
    std::path::Path::new(a) == std::path::Path::new(b)
}

/// A file of an installed model.
pub struct ModelFileRef {
    pub name: String,
    pub is_primary: bool,
}

pub open spec fn file_views(fs: Seq<ModelFileRef>) -> Seq<(Seq<char>, bool)> {
    fs.map_values(|f: ModelFileRef| (f.name@, f.is_primary))
}

/// Index of the first primary file.
pub open spec fn first_primary_from(fs: Seq<(Seq<char>, bool)>, k: int) -> Option<int>
    decreases fs.len() - k,
{
    if k >= fs.len() {
        None
    } else if fs[k].1 {
        Some(k)
    } else {
        first_primary_from(fs, k + 1)
    }
}

/// Is some path of `acc` the same path as `p`?
pub open spec fn has_path(acc: Seq<Seq<char>>, p: Seq<char>) -> bool {
    exists|i: int| 0 <= i < acc.len() && path_eq(#[trigger] acc[i], p)
}

/// The `.onnx` files from `k` on, in order, each added unless its path is
/// already listed.
pub open spec fn add_onnx_from(acc: Seq<Seq<char>>, dir: Seq<char>, fs: Seq<(Seq<char>, bool)>, k: int) -> Seq<Seq<char>>
    decreases fs.len() - k,
{
    if k >= fs.len() || k < 0 {
        acc
    } else {
        let p = path_join(dir, fs[k].0);
        let next = if !has_path(acc, p) && crate::text::ends_with(fs[k].0, ".onnx"@) {
            acc.push(p)
        } else {
            acc
        };
        add_onnx_from(next, dir, fs, k + 1)
    }
}

/// Ordering class of a graph for text-to-speech: main synthesis graphs first,
/// speaker and embedding helpers last.
pub open spec fn tts_tier(p: Seq<char>) -> int {
    let n = lowercase(or_else(path_file_name(p), Seq::empty()));
    if contains_any(n, TTS_MAIN_MARKERS@) {
        0
    } else if contains_any(n, TTS_HELPER_MARKERS@) {
        2
    } else {
        1
    }
}

/// The paths of `ps` in tier `t`, in order.
pub open spec fn tier_paths(ps: Seq<Seq<char>>, t: int) -> Seq<Seq<char>>
    decreases ps.len(),
{
    if ps.len() == 0 {
        ps
    } else {
        let rest = tier_paths(ps.drop_last(), t);
        if tts_tier(ps.last()) == t { rest.push(ps.last()) } else { rest }
    }
}

/// The ONNX graphs tried, in order: the primary file, then the other `.onnx`
/// files not yet listed, or, when that gives nothing, the first file.  For a
/// synthesis task with several candidates, a stable sort by tier.
pub open spec fn onnx_candidates_spec(dir: Seq<char>, fs: Seq<(Seq<char>, bool)>, tts: bool) -> Seq<Seq<char>> {
    let start: Seq<Seq<char>> = match first_primary_from(fs, 0) {
        Some(k) => seq![path_join(dir, fs[k].0)],
        None => Seq::empty(),
    };
    let listed = add_onnx_from(start, dir, fs, 0);
    let base = if listed.len() == 0 && fs.len() > 0 { seq![path_join(dir, fs[0].0)] } else { listed };
    if tts && base.len() > 1 {
        tier_paths(base, 0) + tier_paths(base, 1) + tier_paths(base, 2)
    } else {
        base
    }
}

proof fn lemma_first_primary_from(fs: Seq<(Seq<char>, bool)>, k: int)
    requires
        0 <= k,
        first_primary_from(fs, k) is Some,
    ensures
        k <= first_primary_from(fs, k)->0 < fs.len(),
    decreases fs.len() - k,
{
    if k < fs.len() && !fs[k].1 {
        lemma_first_primary_from(fs, k + 1);
    }
}

fn first_primary(files: &Vec<ModelFileRef>) -> (r: Option<usize>)
    ensures
        match r {
            Some(k) => first_primary_from(file_views(files@), 0) == Some(k as int),
            None => first_primary_from(file_views(files@), 0) is None,
        },
{
    let ghost fs = file_views(files@);
    let mut k: usize = 0;
    while k < files.len()
        invariant
            fs == file_views(files@),
            k <= files@.len(),
            first_primary_from(fs, 0) == first_primary_from(fs, k as int),
        decreases files.len() - k,
    {
        if files[k].is_primary {
            return Some(k);
        }
        k = k + 1;
    }
    None
}

fn listed_path(acc: &Vec<String>, p: &str) -> (r: bool)
    ensures
        r == has_path(crate::text::string_views(acc@), p@),
{
    let ghost g = crate::text::string_views(acc@);
    let mut i: usize = 0;
    while i < acc.len()
        invariant
            g == crate::text::string_views(acc@),
            i <= acc@.len(),
            forall|j: int| 0 <= j < i ==> !path_eq(#[trigger] g[j], p@),
        decreases acc.len() - i,
    {
        assert(g[i as int] == acc@[i as int]@);
        if same_path(acc[i].as_str(), p) {
            return true;
        }
        i = i + 1;
    }
    false
}

fn tier_of(p: &str) -> (r: u8)
    ensures
        r as int == tts_tier(p@),
{
    let n: Vec<char> = match crate::text::file_name_of(p) {
        Some(f) => lower_chars(f.as_str()),
        None => lower_chars(""),
    };
    proof {
        reveal_strlit("");
        assert(""@ =~= Seq::<char>::empty());
    }
    if has_any_sub(&n, &TTS_MAIN_MARKERS) {
        0
    } else if has_any_sub(&n, &TTS_HELPER_MARKERS) {
        2
    } else {
        1
    }
}

fn push_tier(out: &mut Vec<String>, ps: &Vec<String>, t: u8)
    requires
        t <= 2,
    ensures
        crate::text::string_views(final(out)@) == crate::text::string_views(old(out)@) + tier_paths(
            crate::text::string_views(ps@),
            t as int,
        ),
{
    let ghost g = crate::text::string_views(ps@);
    let ghost start = crate::text::string_views(out@);
    let mut i: usize = 0;
    while i < ps.len()
        invariant
            g == crate::text::string_views(ps@),
            i <= ps@.len(),
            crate::text::string_views(out@) == start + tier_paths(g.subrange(0, i as int), t as int),
        decreases ps.len() - i,
    {
        assert(g.subrange(0, i + 1).drop_last() =~= g.subrange(0, i as int));
        assert(g.subrange(0, i + 1).last() == ps@[i as int]@);
        let ghost prev = crate::text::string_views(out@);
        if tier_of(ps[i].as_str()) == t {
            let item = ps[i].as_str().to_owned();
            assert(item@ == g[i as int]);
            assert(tts_tier(g.subrange(0, i + 1).last()) == t as int);
            assert(tier_paths(g.subrange(0, i + 1), t as int) == tier_paths(g.subrange(0, i as int), t as int).push(g[i as int]));
            out.push(item);
            assert(crate::text::string_views(out@) =~= prev.push(g[i as int]));
            assert(crate::text::string_views(out@) =~= start + tier_paths(g.subrange(0, i + 1), t as int));
        } else {
            assert(crate::text::string_views(out@) =~= start + tier_paths(g.subrange(0, i + 1), t as int));
        }
        i = i + 1;
    }
    assert(g.subrange(0, ps@.len() as int) =~= g);
}

/// The ONNX graph paths to try for a model in `local_dir`.
pub fn onnx_candidates(local_dir: &str, files: &Vec<ModelFileRef>, is_tts: bool) -> (r: Vec<String>)
    ensures
        crate::text::string_views(r@) == onnx_candidates_spec(local_dir@, file_views(files@), is_tts),
{
    let ghost fs = file_views(files@);
    let mut acc: Vec<String> = Vec::new();
    let primary = first_primary(files);
    if let Some(k) = primary {
        proof {
            lemma_first_primary_from(fs, 0);
        }
        acc.push(join_path(local_dir, files[k].name.as_str()));
    }
    proof {
        if first_primary_from(fs, 0) is Some {
            lemma_first_primary_from(fs, 0);
        }
    }
    assert(crate::text::string_views(acc@) =~= match first_primary_from(fs, 0) {
        Some(j) => seq![path_join(local_dir@, fs[j].0)],
        None => Seq::<Seq<char>>::empty(),
    });
    let ghost start = crate::text::string_views(acc@);
    let mut i: usize = 0;
    while i < files.len()
        invariant
            fs == file_views(files@),
            i <= files@.len(),
            add_onnx_from(start, local_dir@, fs, 0) == add_onnx_from(crate::text::string_views(acc@), local_dir@, fs, i as int),
        decreases files.len() - i,
    {
        let p = join_path(local_dir, files[i].name.as_str());
        let nc = chars_of(files[i].name.as_str());
        let is_onnx = crate::text::has_suffix(&nc, ".onnx");
        let seen = listed_path(&acc, p.as_str());
        let ghost before = crate::text::string_views(acc@);
        if !seen && is_onnx {
            acc.push(p);
            assert(crate::text::string_views(acc@) =~= before.push(path_join(local_dir@, fs[i as int].0)));
        }
        i = i + 1;
    }
    if acc.len() == 0 && files.len() > 0 {
        acc.push(join_path(local_dir, files[0].name.as_str()));
        assert(crate::text::string_views(acc@) =~= seq![path_join(local_dir@, fs[0].0)]);
    }
    if is_tts && acc.len() > 1 {
        let mut out: Vec<String> = Vec::new();
        push_tier(&mut out, &acc, 0);
        push_tier(&mut out, &acc, 1);
        push_tier(&mut out, &acc, 2);
        assert(crate::text::string_views(out@) =~= Seq::<Seq<char>>::empty() + tier_paths(crate::text::string_views(acc@), 0) + tier_paths(crate::text::string_views(acc@), 1) + tier_paths(crate::text::string_views(acc@), 2));
        return out;
    }
    acc
}

// ───────────────────────── prompt and output ─────────────────────────

/// The prompt sent to the audio engine.
pub open spec fn audio_prompt_spec(
    is_audio: bool,
    data: Seq<char>,
    language: Option<Seq<char>>,
    translate_to: Option<Seq<char>>,
    instruction: Option<Seq<char>>,
) -> Seq<char> {
    if is_audio {
        "[AUDIO_INPUT: "@ + data + "] [LANGUAGE: "@ + or_else(language, "auto"@) + "] [TRANSLATE_TO: "@
            + or_else(translate_to, Seq::empty()) + "] "@ + or_else(
            instruction,
            "Transcribe speech to text cleanly."@,
        )
    } else {
        "[TEXT_INPUT] "@ + data
    }
}

pub fn audio_prompt(
    is_audio: bool,
    data: &str,
    language: Option<&str>,
    translate_to: Option<&str>,
    instruction: Option<&str>,
) -> (r: String)
    ensures
        r@ == audio_prompt_spec(
            is_audio,
            data@,
            crate::text::opt_str_view(language),
            crate::text::opt_str_view(translate_to),
            crate::text::opt_str_view(instruction),
        ),
{
    let d = chars_of(data);
    if !is_audio {
        let a = chars_of("[TEXT_INPUT] ");
        return string_of(&concat_chars(&a, &d));
    }
    let lang: &str = match language {
        Some(l) => l,
        None => "auto",
    };
    let tr: &str = match translate_to {
        Some(t) => t,
        None => "",
    };
    let ins: &str = match instruction {
        Some(i) => i,
        None => "Transcribe speech to text cleanly.",
    };
    proof {
        reveal_strlit("");
        assert(""@ =~= Seq::<char>::empty());
    }
    let a = chars_of("[AUDIO_INPUT: ");
    let b = concat_chars(&a, &d);
    let c = concat_str(&b, "] [LANGUAGE: ");
    let e = concat_str(&c, lang);
    let f = concat_str(&e, "] [TRANSLATE_TO: ");
    let g = concat_str(&f, tr);
    let h = concat_str(&g, "] ");
    let k = concat_str(&h, ins);
    string_of(&k)
}

/// Is an engine error one after which the next candidate graph is tried?
pub fn is_retryable_failure(message: &str) -> (r: bool)
    ensures
        r == contains_any(message@, RETRYABLE_ERROR_MARKERS@),
{
    let c = chars_of(message);
    has_any_sub(&c, &RETRYABLE_ERROR_MARKERS)
}

/// The marker the audio engine ends its stream with.
pub open spec fn done_marker() -> Seq<char> {
    "\n[DONE]\n"@
}

/// A streamed chunk without the end marker, and whether it carried one.
pub fn split_done_marker(chunk: &str) -> (r: (String, bool))
    ensures
        r.1 == contains(chunk@, done_marker()),
        r.1 ==> r.0@ == replace_all(chunk@, done_marker(), Seq::empty()),
        !r.1 ==> r.0@ == chunk@,
{
    let c = chars_of(chunk);
    proof {
        reveal_strlit("\n[DONE]\n");
        reveal_strlit("");
    }
    if has_sub(&c, "\n[DONE]\n") {
        let t = replace_str_chars(&c, "\n[DONE]\n", "");
        assert(""@ =~= Seq::<char>::empty());
        (string_of(&t), true)
    } else {
        (chunk.to_owned(), false)
    }
}

/// What the engine answered an audio request with.
pub enum AudioOutcome {
    /// A complete result.
    Final(String),
    /// The text collected from a token stream.
    Collected(String),
    /// An engine error.
    Failed(String),
}

/// The text an audio request produced, or the error it is reported with.
pub open spec fn audio_output_spec(o: AudioOutcome) -> Result<Seq<char>, Seq<char>> {
    match o {
        AudioOutcome::Final(t) => if trim(t@).len() > 0 && !starts_with(t@, "Error:"@) {
            Ok(t@)
        } else {
            Err("Execution failed to produce output."@)
        },
        AudioOutcome::Collected(c) => {
            let cleaned = trim(c@);
            if starts_with(cleaned, "Error:"@) {
                Err(cleaned)
            } else if cleaned.len() > 0 {
                Ok(cleaned)
            } else {
                Err("Error: Audio Kernel produced empty output."@)
            }
        },
        AudioOutcome::Failed(m) => Err(m@),
    }
}

pub fn audio_output(o: AudioOutcome) -> (r: Result<String, String>)
    ensures
        match r {
            Ok(t) => audio_output_spec(o) == Ok::<Seq<char>, Seq<char>>(t@),
            Err(e) => audio_output_spec(o) == Err::<Seq<char>, Seq<char>>(e@),
        },
{
    match o {
        AudioOutcome::Final(t) => {
            let c = chars_of(t.as_str());
            if trim_chars(&c).len() > 0 && !has_prefix(&c, "Error:") {
                Ok(t)
            } else {
                Err("Execution failed to produce output.".to_owned())
            }
        },
        AudioOutcome::Collected(t) => {
            let c = chars_of(t.as_str());
            let cleaned = trim_chars(&c);
            if has_prefix(&cleaned, "Error:") {
                Err(string_of(&cleaned))
            } else if cleaned.len() > 0 {
                Ok(string_of(&cleaned))
            } else {
                Err("Error: Audio Kernel produced empty output.".to_owned())
            }
        },
        AudioOutcome::Failed(m) => Err(m),
    }
}


// ───────────────────────── request planning ─────────────────────────

/// An audio request refused before execution.
pub enum AudioRefusal {
    /// The named model is not installed.
    ModelNotInstalled(String),
    /// No installed model serves the target task.
    NoModelForTask(String),
    /// The chosen model has no registry entry.
    ModelMissing(String),
    /// The input does not fit the task's modality: the error, the model, the
    /// resolved task and the lower-cased input source type.
    Modality(ModalityError, String, String, String),
}

pub open spec fn refusal_view(r: AudioRefusal) -> RefusalView {
    match r {
        AudioRefusal::ModelNotInstalled(m) => RefusalView::ModelNotInstalled(m@),
        AudioRefusal::NoModelForTask(t) => RefusalView::NoModelForTask(t@),
        AudioRefusal::ModelMissing(m) => RefusalView::ModelMissing(m@),
        AudioRefusal::Modality(e, m, t, i) => RefusalView::Modality(e, m@, t@, i@),
    }
}

/// The HTTP status an audio refusal is answered with: not found for a missing
/// model, bad request for a modality mismatch.
pub open spec fn refusal_status(r: RefusalView) -> u16 {
    match r {
        RefusalView::Modality(..) => 400,
        _ => 404,
    }
}

/// The error message an audio refusal is answered with.
pub open spec fn refusal_message(r: RefusalView) -> Seq<char> {
    match r {
        RefusalView::ModelNotInstalled(m) => "Requested audio model '"@ + m + "' is not installed in ModelRegistry."@,
        RefusalView::NoModelForTask(t) => "No installed audio model found for task '"@ + t
            + "' in Engine ModelRegistry. Please install an audio model for this "@
            + "task."@,
        RefusalView::ModelMissing(m) => "Audio model '"@ + m + "' not found in installed models."@,
        RefusalView::Modality(ModalityError::AudioForSynthesis, m, t, i) => "Input modality mismatch: Model '"@ + m
            + "' is configured for text-to-audio synthesis (task: '"@ + t + "'), but an Audio file input ('"@ + i
            + "') was provided. Expected Text input source."@,
        RefusalView::Modality(ModalityError::TextForTranscription, m, t, _) => "Input modality mismatch: Model '"@ + m
            + "' is configured for audio processing/transcription (task: '"@ + t
            + "'), but a Text input source ('text') was provided. Expected an Audio file input source (url, base64, or file)."@,
    }
}

impl AudioRefusal {
    /// The HTTP status of the refusal.
    pub fn status(&self) -> (r: u16)
        ensures
            r == refusal_status(refusal_view(*self)),
    {
        match self {
            AudioRefusal::Modality(..) => 400,
            _ => 404,
        }
    }

    /// The error message of the refusal.
    pub fn message(&self) -> (r: String)
        ensures
            r@ == refusal_message(refusal_view(*self)),
    {
        let parts: Vec<char> = match self {
            AudioRefusal::ModelNotInstalled(m) => {
                let a = concat_str(&chars_of("Requested audio model '"), m.as_str());
                concat_str(&a, "' is not installed in ModelRegistry.")
            },
            AudioRefusal::NoModelForTask(t) => {
                let a = concat_str(&chars_of("No installed audio model found for task '"), t.as_str());
                let b = concat_str(&a, "' in Engine ModelRegistry. Please install an audio model for this ");
                concat_str(&b, "task.")
            },
            AudioRefusal::ModelMissing(m) => {
                let a = concat_str(&chars_of("Audio model '"), m.as_str());
                concat_str(&a, "' not found in installed models.")
            },
            AudioRefusal::Modality(ModalityError::AudioForSynthesis, m, t, i) => {
                let a = concat_str(&chars_of("Input modality mismatch: Model '"), m.as_str());
                let b = concat_str(&a, "' is configured for text-to-audio synthesis (task: '");
                let c = concat_str(&b, t.as_str());
                let d = concat_str(&c, "'), but an Audio file input ('");
                let e = concat_str(&d, i.as_str());
                concat_str(&e, "') was provided. Expected Text input source.")
            },
            AudioRefusal::Modality(ModalityError::TextForTranscription, m, t, _) => {
                let a = concat_str(&chars_of("Input modality mismatch: Model '"), m.as_str());
                let b = concat_str(&a, "' is configured for audio processing/transcription (task: '");
                let c = concat_str(&b, t.as_str());
                concat_str(
                    &c,
                    "'), but a Text input source ('text') was provided. Expected an Audio file input source (url, base64, or file).",
                )
            },
        };
        string_of(&parts)
    }
}

/// Everything an audio request is executed with.
pub struct AudioPlan {
    pub model_id: String,
    pub task: String,
    pub candidates: Vec<String>,
    pub prompt: String,
    pub is_tts: bool,
}

pub enum RefusalView {
    ModelNotInstalled(Seq<char>),
    NoModelForTask(Seq<char>),
    ModelMissing(Seq<char>),
    Modality(ModalityError, Seq<char>, Seq<char>, Seq<char>),
}

pub struct PlanView {
    pub model_id: Seq<char>,
    pub task: Seq<char>,
    pub candidates: Seq<Seq<char>>,
    pub prompt: Seq<char>,
    pub is_tts: bool,
}

pub open spec fn plan_view(r: Result<AudioPlan, AudioRefusal>) -> Result<PlanView, RefusalView> {
    match r {
        Ok(p) => Ok(PlanView {
            model_id: p.model_id@,
            task: p.task@,
            candidates: crate::text::string_views(p.candidates@),
            prompt: p.prompt@,
            is_tts: p.is_tts,
        }),
        Err(AudioRefusal::ModelNotInstalled(m)) => Err(RefusalView::ModelNotInstalled(m@)),
        Err(AudioRefusal::NoModelForTask(t)) => Err(RefusalView::NoModelForTask(t@)),
        Err(AudioRefusal::ModelMissing(m)) => Err(RefusalView::ModelMissing(m@)),
        Err(AudioRefusal::Modality(e, m, t, i)) => Err(RefusalView::Modality(e, m@, t@, i@)),
    }
}

/// The model an audio request runs on: the installed model it names (refused
/// when none matches), else the default model for its target task (refused when
/// there is none).
pub open spec fn chosen_audio_model(
    es: Seq<EntryView>,
    model: Option<Seq<char>>,
    active: Option<Seq<char>>,
    target: Seq<char>,
) -> Result<Seq<char>, RefusalView> {
    if explicit_model_spec(model) {
        let m = or_else(model, Seq::empty());
        match model_by_name_spec(es, m) {
            Some(k) => Ok(es[k].key),
            None => Err(RefusalView::ModelNotInstalled(m)),
        }
    } else {
        let id = default_audio_model_spec(es, active, target);
        if id.len() == 0 {
            Err(RefusalView::NoModelForTask(target))
        } else {
            Ok(id)
        }
    }
}

/// The plan of an audio request over the installed models (`files` and
/// `local_dirs` of each by index): the chosen model, the task resolved against its
/// tasks, the modality guardrail, its ONNX candidates and the engine prompt.
pub open spec fn audio_plan_spec(
    installed: Seq<AudioModelEntry>,
    files: Seq<Vec<ModelFileRef>>,
    local_dirs: Seq<String>,
    model: Option<Seq<char>>,
    task: Option<Seq<char>>,
    source_type: Seq<char>,
    data: Seq<char>,
    active: Option<Seq<char>>,
    language: Option<Seq<char>>,
    translate_to: Option<Seq<char>>,
    instruction: Option<Seq<char>>,
) -> Result<PlanView, RefusalView> {
    let es = entry_views(installed);
    let is_audio = is_audio_input_spec(source_type, data);
    let is_text = is_text_input_spec(source_type, data);
    let requested = requested_task_spec(task);
    let target = target_task_spec(requested, is_text);
    match chosen_audio_model(es, model, active, target) {
        Err(e) => Err(e),
        Ok(id) => match key_index_from(es, id, 0) {
            None => Err(RefusalView::ModelMissing(id)),
            Some(k) => {
                let resolved = resolved_task_spec(requested, target, es[k].tasks);
                if is_tts_task(resolved) && is_audio {
                    Err(RefusalView::Modality(ModalityError::AudioForSynthesis, id, resolved, lowercase(source_type)))
                } else if is_stt_task(resolved) && is_text {
                    Err(RefusalView::Modality(ModalityError::TextForTranscription, id, resolved, lowercase(source_type)))
                } else {
                    Ok(PlanView {
                        model_id: id,
                        task: resolved,
                        candidates: onnx_candidates_spec(local_dirs[k]@, file_views(files[k]@), is_tts_task(resolved)),
                        prompt: audio_prompt_spec(is_audio, data, language, translate_to, instruction),
                        is_tts: is_tts_task(resolved),
                    })
                }
            },
        },
    }
}

/// Plans an audio request over the installed models (`files` and `local_dirs` of
/// each entry by index).
pub fn plan_audio(
    installed: &Vec<AudioModelEntry>,
    files: &Vec<Vec<ModelFileRef>>,
    local_dirs: &Vec<String>,
    model: Option<&str>,
    task: Option<&str>,
    source_type: &str,
    data: &str,
    active_audio_model: Option<&str>,
    language: Option<&str>,
    translate_to: Option<&str>,
    instruction: Option<&str>,
) -> (r: Result<AudioPlan, AudioRefusal>)
    requires
        files@.len() == installed@.len(),
        local_dirs@.len() == installed@.len(),
    ensures
        plan_view(r) == audio_plan_spec(
            installed@,
            files@,
            local_dirs@,
            crate::text::opt_str_view(model),
            crate::text::opt_str_view(task),
            source_type@,
            data@,
            crate::text::opt_str_view(active_audio_model),
            crate::text::opt_str_view(language),
            crate::text::opt_str_view(translate_to),
            crate::text::opt_str_view(instruction),
        ),
{
    let (is_audio, is_text) = classify_audio_input(source_type, data);
    let requested = requested_task(task);
    let target = target_task(requested.as_str(), is_text);
    let ghost es = entry_views(installed@);
    let model_id = if is_explicit_model(model) {
        let m = match model {
            Some(x) => x,
            None => "",
        };
        match find_model_by_name(installed, m) {
            Some(k) => {
                proof {
                    assert(es[k as int].key == installed@[k as int].key@);
                }
                installed[k].key.clone()
            },
            None => return Err(AudioRefusal::ModelNotInstalled(m.to_owned())),
        }
    } else {
        let id = default_audio_model(installed, active_audio_model, target.as_str());
        if chars_of(id.as_str()).len() == 0 {
            return Err(AudioRefusal::NoModelForTask(target));
        }
        id
    };
    let k = match entry_by_key(installed, model_id.as_str()) {
        Some(k) => k,
        None => return Err(AudioRefusal::ModelMissing(model_id)),
    };
    proof {
        assert(es[k as int].tasks == crate::text::string_views(installed@[k as int].supported_tasks@));
    }
    let resolved = resolve_task(requested.as_str(), target.as_str(), &installed[k].supported_tasks);
    match check_modality(resolved.as_str(), is_audio, is_text) {
        Err(e) => {
            let input_type = string_of(&lower_chars(source_type));
            return Err(AudioRefusal::Modality(e, model_id, resolved, input_type));
        },
        Ok(()) => {},
    }
    let is_tts = is_tts_task_name(resolved.as_str());
    let candidates = onnx_candidates(local_dirs[k].as_str(), &files[k], is_tts);
    let prompt = audio_prompt(is_audio, data, language, translate_to, instruction);
    Ok(AudioPlan { model_id, task: resolved, candidates, prompt, is_tts })
}

/// The next candidate graph an audio request runs after `done` attempts over
/// `n_candidates` candidates, the first of which failed with `first_error` when it
/// failed: the first candidate at the start; nothing once an attempt succeeded;
/// after a failed first attempt the others in turn, but only when its error is one
/// worth retrying.
pub open spec fn next_attempt_spec(n_candidates: nat, done: nat, first_error: Seq<char>, last_failed: bool) -> Option<nat> {
    if done == 0 {
        if n_candidates > 0 { Some(0) } else { None }
    } else if !last_failed {
        None
    } else if done == 1 && !contains_any(first_error, RETRYABLE_ERROR_MARKERS@) {
        None
    } else if done < n_candidates {
        Some(done)
    } else {
        None
    }
}

/// The step of the audio retry loop: which candidate to run next, if any (see
/// `next_attempt_spec`).  When every attempt failed, the first error is the reply.
pub fn next_audio_attempt(n_candidates: usize, done: usize, first_error: &str, last_failed: bool) -> (r: Option<usize>)
    ensures
        match r {
            Some(i) => next_attempt_spec(n_candidates as nat, done as nat, first_error@, last_failed) == Some(i as nat),
            None => next_attempt_spec(n_candidates as nat, done as nat, first_error@, last_failed) is None,
        },
{
    if done == 0 {
        if n_candidates > 0 { Some(0) } else { None }
    } else if !last_failed {
        None
    } else if done == 1 && !is_retryable_failure(first_error) {
        None
    } else if done < n_candidates {
        Some(done)
    } else {
        None
    }
}

} // verus!
