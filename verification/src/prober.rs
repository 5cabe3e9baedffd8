//! Engine-side probing: GGUF header summaries, ONNX file-name hints, and the
//! normalization of task names that feed the task vote.
use vstd::prelude::*;
use crate::text::{
    contains, eq_str, file_name_of, find_word, has_sub, lower_chars, lowercase, or_else,
    path_file_name, replace_char, replace_char_chars, string_views, strings_contain, table_lookup,
};
use crate::discovery::probe::{opt_str, BinaryProbeResult};
use crate::order::{lex_leq, sort_strings};
use crate::text::{chars_eq, chars_of, concat_chars, contains_any, has_any_sub, string_of};

verus! {

pub const TASK_ALIASES: [&'static str; 19] = [
    "automatic_speech_recognition", "asr", "speech_recognition", "speech_to_text",
    "tts", "text_to_speech", "text_to_audio",
    "image_to_text", "image_text_to_text", "vqa", "visual_question_answering",
    "text_generation", "chat", "conversational",
    "feature_extraction", "sentence_similarity",
    "image_feature_extraction", "zero_shot_image_classification", "visual_document_retrieval",
];

pub const TASK_NAMES: [&'static str; 19] = [
    "automatic-speech-recognition", "automatic-speech-recognition", "automatic-speech-recognition", "automatic-speech-recognition",
    "text-to-speech", "text-to-speech", "text-to-speech",
    "image-text-to-text", "image-text-to-text", "image-text-to-text", "image-text-to-text",
    "chat-completion", "chat-completion", "chat-completion",
    "embedding", "embedding",
    "image-feature-extraction", "image-feature-extraction", "image-feature-extraction",
];

/// Votes on what a model does.
pub struct VotingArbitrator;

/// Canonical name of a task: matched lower-cased with `-` read as `_`; unknown
/// names are kept exactly as given.
pub open spec fn normalize_task_spec(raw: Seq<char>) -> Seq<char> {
    table_lookup(TASK_ALIASES@, TASK_NAMES@, replace_char(lowercase(raw), '-', '_'), raw)
}

impl VotingArbitrator {
    /// Canonical name of a task.
    pub fn normalize_task(raw_task: &str) -> (r: String)
        ensures
            r@ == normalize_task_spec(raw_task@),
    {
        let l = lower_chars(raw_task);
        let k = replace_char_chars(&l, '-', '_');
        match find_word(&TASK_ALIASES, &k) {
            Some(i) => TASK_NAMES[i].to_owned(),
            None => raw_task.to_owned(),
        }
    }
}


/// What a GGUF header says, for the engine.
pub struct GgufProbeResult {
    pub architecture: Option<String>,
    pub context_window: Option<String>,
    pub chat_template: Option<String>,
    pub quantization: Option<String>,
    pub parameter_count: Option<String>,
    pub think_start_tag: Option<String>,
    pub think_end_tag: Option<String>,
    pub is_embedding: bool,
    pub has_vision: bool,
}

/// `Some(s)` unless `s` is the `Unknown` label.
pub open spec fn known(s: Seq<char>) -> Option<Seq<char>> {
    if s == "Unknown"@ { None } else { Some(s) }
}

pub struct GgufProber;

impl GgufProber {
    /// The engine's summary of a GGUF header probe: labels still `Unknown` become
    /// `None`; embedding when pooled or declared; vision from keys or tensors.
    pub fn probe_file(probe: BinaryProbeResult) -> (r: Result<GgufProbeResult, String>)
        ensures
            r matches Ok(g) && {
                &&& opt_str(g.architecture) == known(probe.architecture@)
                &&& opt_str(g.context_window) == known(probe.context_window@)
                &&& g.chat_template == probe.chat_template
                &&& g.quantization == probe.quantization
                &&& opt_str(g.parameter_count) == known(probe.parameters_str@)
                &&& g.think_start_tag == probe.think_start_tag
                &&& g.think_end_tag == probe.think_end_tag
                &&& g.is_embedding == (probe.has_pooling || string_views(probe.explicit_tasks@).contains(
                    "embedding"@,
                ) || string_views(probe.explicit_tasks@).contains("feature-extraction"@))
                &&& g.has_vision == (probe.has_vision_keys || probe.has_vision_tensors)
            },
    {
        let is_embedding = probe.has_pooling || strings_contain(probe.explicit_tasks.as_slice(), "embedding")
            || strings_contain(probe.explicit_tasks.as_slice(), "feature-extraction");
        let arch = crate::text::chars_of(probe.architecture.as_str());
        let ctx = crate::text::chars_of(probe.context_window.as_str());
        let params = crate::text::chars_of(probe.parameters_str.as_str());
        let arch_known = !eq_str(&arch, "Unknown");
        let ctx_known = !eq_str(&ctx, "Unknown");
        let params_known = !eq_str(&params, "Unknown");
        Ok(GgufProbeResult {
            architecture: if arch_known { Some(probe.architecture) } else { None },
            context_window: if ctx_known { Some(probe.context_window) } else { None },
            chat_template: probe.chat_template,
            quantization: probe.quantization,
            parameter_count: if params_known { Some(probe.parameters_str) } else { None },
            think_start_tag: probe.think_start_tag,
            think_end_tag: probe.think_end_tag,
            is_embedding,
            has_vision: probe.has_vision_keys || probe.has_vision_tensors,
        })
    }
}

/// What an ONNX file's name says, for the engine.
pub struct OnnxProbeResult {
    pub is_tts: bool,
    pub is_asr: bool,
    pub is_embedding: bool,
    pub is_vision: bool,
    pub tts_family: Option<String>,
}

/// The lower-cased file name of a path (empty when it has none).
pub open spec fn lower_file_name(p: Seq<char>) -> Seq<char> {
    lowercase(or_else(path_file_name(p), Seq::<char>::empty()))
}

/// Hints from an ONNX file name, first match wins.
pub open spec fn onnx_hints(n: Seq<char>) -> (bool, bool, bool, bool, Option<Seq<char>>) {
    if contains(n, "kokoro"@) {
        (true, false, false, false, Some("kokoro"@))
    } else if contains(n, "piper"@) {
        (true, false, false, false, Some("piper"@))
    } else if contains(n, "cosyvoice"@) {
        (true, false, false, false, Some("cosyvoice"@))
    } else if contains(n, "whisper"@) || contains(n, "sensevoice"@) || contains(n, "moonshine"@) {
        (false, true, false, false, None)
    } else if contains(n, "embed"@) || contains(n, "bge"@) || contains(n, "minilm"@) {
        (false, false, true, false, None)
    } else if contains(n, "clip"@) || contains(n, "siglip"@) || contains(n, "ocr"@) {
        (false, false, false, true, None)
    } else {
        (false, false, false, false, None)
    }
}

pub struct OnnxProber;

impl OnnxProber {
    /// Hints from the name of the ONNX file at `path`.
    pub fn probe_file(path: &str) -> (r: OnnxProbeResult)
        ensures
            (r.is_tts, r.is_asr, r.is_embedding, r.is_vision, opt_str(r.tts_family)) == onnx_hints(
                lower_file_name(path@),
            ),
    {
        let name = match file_name_of(path) {
            Some(n) => lower_chars(n.as_str()),
            None => lower_chars(""),
        };
        proof {
            reveal_strlit("");
            assert(""@ =~= Seq::<char>::empty());
        }
        let mut r = OnnxProbeResult {
            is_tts: false,
            is_asr: false,
            is_embedding: false,
            is_vision: false,
            tts_family: None,
        };
        if has_sub(&name, "kokoro") {
            r.is_tts = true;
            r.tts_family = Some("kokoro".to_owned());
        } else if has_sub(&name, "piper") {
            r.is_tts = true;
            r.tts_family = Some("piper".to_owned());
        } else if has_sub(&name, "cosyvoice") {
            r.is_tts = true;
            r.tts_family = Some("cosyvoice".to_owned());
        } else if has_sub(&name, "whisper") || has_sub(&name, "sensevoice") || has_sub(&name, "moonshine") {
            r.is_asr = true;
        } else if has_sub(&name, "embed") || has_sub(&name, "bge") || has_sub(&name, "minilm") {
            r.is_embedding = true;
        } else if has_sub(&name, "clip") || has_sub(&name, "siglip") || has_sub(&name, "ocr") {
            r.is_vision = true;
        }
        r
    }
}


// ───────────────────────── task vote ─────────────────────────

pub const VOTE_TTS_MARKERS: [&'static str; 7] = [
    "tts", "kokoro", "vits", "supertonic", "piper", "matcha", "cosyvoice",
];
pub const VOTE_ASR_MARKERS: [&'static str; 4] = ["whisper", "sensevoice", "moonshine", "paraformer"];
pub const VOTE_EMBED_MARKERS: [&'static str; 7] = ["bert", "embed", "embedding", "bge", "nomic", "gte", "minilm"];
pub const VOTE_VISION_EMBED_MARKERS: [&'static str; 4] = ["clip", "siglip", "colpali", "colqwen"];

/// Weight of a task named in the weight file's header.
pub const HEADER_VOTE: u64 = 30;
/// Weight of the hub's pipeline tag.
pub const PIPELINE_VOTE: u64 = 45;
/// Weight of each hub tag.
pub const TAG_VOTE: u64 = 10;
/// Weight of a speech name heuristic.
pub const NAME_VOTE: u64 = 25;
/// Weight of an embedding name heuristic.
pub const EMBED_NAME_VOTE: u64 = 40;
/// Score from which a task is kept whatever the others scored.
pub const KEEP_SCORE: u64 = 40;

/// Votes cast by each source: header tasks, the pipeline tag, hub tags (all
/// normalized), then the name heuristics over `ident` (`"<arch> <dir name>"`).
pub open spec fn vote_ballots(
    header: Seq<Seq<char>>,
    pipeline: Option<Seq<char>>,
    tags: Seq<Seq<char>>,
    has_tts_json: bool,
    ident: Seq<char>,
) -> Seq<(Seq<char>, u64)> {
    let h = Seq::new(header.len(), |i: int| (normalize_task_spec(header[i]), HEADER_VOTE));
    let p = match pipeline {
        Some(t) => seq![(normalize_task_spec(t), PIPELINE_VOTE)],
        None => Seq::empty(),
    };
    let g = Seq::new(tags.len(), |i: int| (normalize_task_spec(tags[i]), TAG_VOTE));
    let tts = if has_tts_json || contains_any(ident, VOTE_TTS_MARKERS@) {
        seq![("text-to-speech"@, NAME_VOTE)]
    } else {
        Seq::empty()
    };
    let asr = if contains_any(ident, VOTE_ASR_MARKERS@) {
        seq![("automatic-speech-recognition"@, NAME_VOTE)]
    } else {
        Seq::empty()
    };
    let emb = if contains_any(ident, VOTE_EMBED_MARKERS@) {
        seq![("embedding"@, EMBED_NAME_VOTE)]
    } else {
        Seq::empty()
    };
    let vis = if contains_any(ident, VOTE_VISION_EMBED_MARKERS@) {
        seq![("image-feature-extraction"@, EMBED_NAME_VOTE)]
    } else {
        Seq::empty()
    };
    h + p + g + tts + asr + emb + vis
}

/// Total votes for task `t`.
pub open spec fn score_of(b: Seq<(Seq<char>, u64)>, t: Seq<char>) -> int
    decreases b.len(),
{
    if b.len() == 0 {
        0
    } else {
        score_of(b.drop_last(), t) + if b.last().0 == t { b.last().1 as int } else { 0 }
    }
}

/// Tasks that received votes, each once, in first-vote order.
pub open spec fn voted_tasks(b: Seq<(Seq<char>, u64)>) -> Seq<Seq<char>>
    decreases b.len(),
{
    if b.len() == 0 {
        Seq::empty()
    } else {
        let p = voted_tasks(b.drop_last());
        if p.contains(b.last().0) { p } else { p.push(b.last().0) }
    }
}

/// Highest score among `tasks` (0 for none).
pub open spec fn max_score(b: Seq<(Seq<char>, u64)>, tasks: Seq<Seq<char>>) -> int
    decreases tasks.len(),
{
    if tasks.len() == 0 {
        0
    } else {
        let m = max_score(b, tasks.drop_last());
        let s = score_of(b, tasks.last());
        if s > m { s } else { m }
    }
}

/// A task is kept when it scored at least 40, or scored the highest (positive) score.
pub open spec fn kept(b: Seq<(Seq<char>, u64)>, t: Seq<char>) -> bool {
    let m = max_score(b, voted_tasks(b));
    score_of(b, t) >= KEEP_SCORE || (score_of(b, t) == m && m > 0)
}

/// The kept tasks among `tasks`, in order.
pub open spec fn kept_tasks(b: Seq<(Seq<char>, u64)>, tasks: Seq<Seq<char>>) -> Seq<Seq<char>>
    decreases tasks.len(),
{
    if tasks.len() == 0 {
        Seq::empty()
    } else {
        let p = kept_tasks(b, tasks.drop_last());
        if kept(b, tasks.last()) { p.push(tasks.last()) } else { p }
    }
}

/// Outcome of the vote: the kept tasks in string order.
pub open spec fn vote_outcome(b: Seq<(Seq<char>, u64)>) -> Seq<Seq<char>> {
    kept_tasks(b, voted_tasks(b)).sort_by(lex_leq())
}

proof fn lemma_kept_tasks(b: Seq<(Seq<char>, u64)>, tasks: Seq<Seq<char>>)
    ensures
        forall|t: Seq<char>| kept_tasks(b, tasks).contains(t) <==> (tasks.contains(t) && kept(b, t)),
        tasks.no_duplicates() ==> kept_tasks(b, tasks).no_duplicates(),
    decreases tasks.len(),
{
    if tasks.len() > 0 {
        let init = tasks.drop_last();
        lemma_kept_tasks(b, init);
        let p = kept_tasks(b, init);
        let full = kept_tasks(b, tasks);
        let last = tasks.last();
        assert(full == (if kept(b, last) { p.push(last) } else { p }));
        assert forall|t: Seq<char>| full.contains(t) <==> (tasks.contains(t) && kept(b, t)) by {
            if full.contains(t) {
                let j = choose|j: int| 0 <= j < full.len() && full[j] == t;
                if j < p.len() {
                    assert(p[j] == t);
                    assert(p.contains(t));
                    assert(init.contains(t));
                    let k = choose|k: int| 0 <= k < init.len() && init[k] == t;
                    assert(tasks[k] == t);
                } else {
                    assert(kept(b, last) && t == last);
                    assert(tasks[tasks.len() - 1] == t);
                }
            }
            if tasks.contains(t) && kept(b, t) {
                let k = choose|k: int| 0 <= k < tasks.len() && tasks[k] == t;
                if k < tasks.len() - 1 {
                    assert(init[k] == t);
                    assert(init.contains(t));
                    assert(p.contains(t));
                    let j = choose|j: int| 0 <= j < p.len() && p[j] == t;
                    assert(full[j] == t);
                } else {
                    assert(t == last);
                    assert(full[p.len() as int] == t);
                }
            }
        }
        if tasks.no_duplicates() {
            assert(init.no_duplicates());
            if kept(b, tasks.last()) {
                assert(!init.contains(tasks.last()));
                assert(!p.contains(tasks.last()));
            }
        }
    }
}

/// The vote's outcome is in string order, holds no task twice, and holds exactly
/// the voted tasks that are kept.
pub proof fn lemma_vote_outcome_ordered_distinct(b: Seq<(Seq<char>, u64)>)
    ensures
        vote_outcome(b).no_duplicates(),
        vstd::relations::sorted_by(vote_outcome(b), lex_leq()),
        forall|t: Seq<char>| vote_outcome(b).contains(t) <==> (voted_tasks(b).contains(t) && kept(b, t)),
{
    broadcast use vstd::seq_lib::to_multiset_contains;
    lemma_voted_distinct(b);
    let k = kept_tasks(b, voted_tasks(b));
    lemma_kept_tasks(b, voted_tasks(b));
    crate::order::lemma_lex_total_ordering();
    k.lemma_sort_by_ensures(lex_leq());
    let s = k.sort_by(lex_leq());
    k.lemma_multiset_has_no_duplicates();
    assert forall|x: Seq<char>| s.to_multiset().contains(x) implies s.to_multiset().count(x) == 1 by {
        assert(k.to_multiset().count(x) == s.to_multiset().count(x));
    }
    s.lemma_multiset_has_no_duplicates_conv();
    assert forall|t: Seq<char>| s.contains(t) <==> k.contains(t) by {
        assert(k.to_multiset().count(t) == s.to_multiset().count(t));
    }
}

/// Upper bound of all votes cast, used to keep every score within `u64`.
pub open spec fn ballot_total(b: Seq<(Seq<char>, u64)>) -> int
    decreases b.len(),
{
    if b.len() == 0 { 0 } else { ballot_total(b.drop_last()) + b.last().1 }
}

proof fn lemma_score_bounded(b: Seq<(Seq<char>, u64)>, t: Seq<char>)
    ensures
        0 <= score_of(b, t) <= ballot_total(b),
    decreases b.len(),
{
    if b.len() > 0 {
        lemma_score_bounded(b.drop_last(), t);
    }
}

fn push_ballot(v: &mut Vec<(String, u64)>, name: String, w: u64)
    ensures
        ballot_views(final(v)@) == ballot_views(old(v)@).push((name@, w)),
        ballot_total(ballot_views(final(v)@)) == ballot_total(ballot_views(old(v)@)) + w,
{
    let ghost nv = name@;
    v.push((name, w));
    assert(ballot_views(v@) =~= ballot_views(old(v)@).push((nv, w)));
    assert(ballot_views(v@).drop_last() =~= ballot_views(old(v)@));
}

/// Views of ballots.
pub open spec fn ballot_views(v: Seq<(String, u64)>) -> Seq<(Seq<char>, u64)> {
    Seq::new(v.len(), |i: int| (v[i].0@, v[i].1))
}

/// Index of `t` among `keys`.
fn key_position(keys: &Vec<String>, t: &str) -> (r: Option<usize>)
    ensures
        match r {
            Some(j) => j < keys@.len() && keys@[j as int]@ == t@,
            None => !string_views(keys@).contains(t@),
        },
{
    let tc = chars_of(t);
    let mut j: usize = 0;
    while j < keys.len()
        invariant
            j <= keys@.len(),
            tc@ == t@,
            forall|k: int| 0 <= k < j ==> keys@[k]@ != t@,
        decreases keys.len() - j,
    {
        let kc = chars_of(keys[j].as_str());
        if chars_eq(&kc, &tc) {
            return Some(j);
        }
        j = j + 1;
    }
    proof {
        if string_views(keys@).contains(t@) {
            let k = choose|k: int| 0 <= k < string_views(keys@).len() && string_views(keys@)[k] == t@;
            assert(keys@[k]@ == t@);
        }
    }
    None
}

impl VotingArbitrator {
    /// Ballots of the vote (see `vote_ballots`).
    fn ballots(
        header_tasks: &Vec<String>,
        pipeline_tag: &Option<String>,
        tags: &Vec<String>,
        has_tts_json: bool,
        ident: &[char],
    ) -> (r: Vec<(String, u64)>)
        requires
            30 * header_tasks@.len() + 10 * tags@.len() + 175 <= u64::MAX,
        ensures
            ballot_views(r@) == vote_ballots(
                string_views(header_tasks@),
                opt_str(*pipeline_tag),
                string_views(tags@),
                has_tts_json,
                ident@,
            ),
            ballot_total(ballot_views(r@)) <= 30 * header_tasks@.len() + 10 * tags@.len() + 175,
    {
        let mut v: Vec<(String, u64)> = Vec::new();
        assert(ballot_views(v@) =~= Seq::<(Seq<char>, u64)>::empty());
        Self::push_votes(&mut v, header_tasks, HEADER_VOTE);
        let ghost after_header = ballot_views(v@);
        if let Some(p) = pipeline_tag {
            let n = Self::normalize_task(p.as_str());
            push_ballot(&mut v, n, PIPELINE_VOTE);
        }
        Self::push_votes(&mut v, tags, TAG_VOTE);
        if has_tts_json || has_any_sub(ident, &VOTE_TTS_MARKERS) {
            push_ballot(&mut v, "text-to-speech".to_owned(), NAME_VOTE);
        }
        if has_any_sub(ident, &VOTE_ASR_MARKERS) {
            push_ballot(&mut v, "automatic-speech-recognition".to_owned(), NAME_VOTE);
        }
        if has_any_sub(ident, &VOTE_EMBED_MARKERS) {
            push_ballot(&mut v, "embedding".to_owned(), EMBED_NAME_VOTE);
        }
        if has_any_sub(ident, &VOTE_VISION_EMBED_MARKERS) {
            push_ballot(&mut v, "image-feature-extraction".to_owned(), EMBED_NAME_VOTE);
        }
        proof {
            assert(ballot_views(v@) =~= vote_ballots(
                string_views(header_tasks@),
                opt_str(*pipeline_tag),
                string_views(tags@),
                has_tts_json,
                ident@,
            ));
        }
        v
    }

    /// Appends a vote of weight `w` for each task of `tasks`, normalized.
    fn push_votes(v: &mut Vec<(String, u64)>, tasks: &Vec<String>, w: u64)
        requires
            ballot_total(ballot_views(old(v)@)) + w * tasks@.len() <= u64::MAX,
        ensures
            ballot_views(final(v)@) == ballot_views(old(v)@) + Seq::new(
                tasks@.len(),
                |k: int| (normalize_task_spec(string_views(tasks@)[k]), w),
            ),
            ballot_total(ballot_views(final(v)@)) == ballot_total(ballot_views(old(v)@)) + w * tasks@.len(),
    {
        let ghost tv = string_views(tasks@);
        let ghost start = ballot_views(v@);
        let ghost start_total = ballot_total(start);
        let mut i: usize = 0;
        assert(start =~= start + Seq::new(0, |k: int| (normalize_task_spec(tv[k]), w)));
        while i < tasks.len()
            invariant
                i <= tasks@.len(),
                tv == string_views(tasks@),
                ballot_views(v@) == start + Seq::new(i as nat, |k: int| (normalize_task_spec(tv[k]), w)),
                ballot_total(ballot_views(v@)) == start_total + w * i,
            decreases tasks.len() - i,
        {
            let n = Self::normalize_task(tasks[i].as_str());
            assert(w * (i + 1) == w * i + w) by (nonlinear_arith);
            push_ballot(v, n, w);
            i = i + 1;
            assert(ballot_views(v@) =~= start + Seq::new(i as nat, |k: int| (normalize_task_spec(tv[k]), w)));
        }
    }
}


proof fn lemma_voted_distinct(b: Seq<(Seq<char>, u64)>)
    ensures
        voted_tasks(b).no_duplicates(),
        forall|t: Seq<char>| !voted_tasks(b).contains(t) ==> score_of(b, t) == 0,
    decreases b.len(),
{
    if b.len() > 0 {
        lemma_voted_distinct(b.drop_last());
        let p = voted_tasks(b.drop_last());
        assert forall|t: Seq<char>| !voted_tasks(b).contains(t) implies score_of(b, t) == 0 by {
            if !p.contains(t) {
                assert(score_of(b.drop_last(), t) == 0);
            }
            if p.contains(t) {
                assert(voted_tasks(b).contains(t)) by {
                    if !p.contains(b.last().0) {
                        let k = choose|k: int| 0 <= k < p.len() && p[k] == t;
                        assert(p.push(b.last().0)[k] == t);
                    }
                }
            }
            if b.last().0 == t {
                if !p.contains(t) {
                    assert(p.push(t)[p.len() as int] == t);
                }
            }
        }
    }
}

proof fn lemma_ballot_prefix(b: Seq<(Seq<char>, u64)>, k: int)
    requires
        0 <= k <= b.len(),
    ensures
        ballot_total(b.take(k)) <= ballot_total(b),
    decreases b.len() - k,
{
    if k < b.len() {
        lemma_ballot_prefix(b, k + 1);
        assert(b.take(k + 1).drop_last() =~= b.take(k));
    } else {
        assert(b.take(k) =~= b);
    }
}

impl VotingArbitrator {
    /// Scores of the tasks that were voted for, in first-vote order.
    fn tally(b: &Vec<(String, u64)>) -> (r: (Vec<String>, Vec<u64>))
        requires
            ballot_total(ballot_views(b@)) <= u64::MAX,
        ensures
            string_views(r.0@) == voted_tasks(ballot_views(b@)),
            r.1@.len() == r.0@.len(),
            forall|j: int| 0 <= j < r.1@.len() ==> r.1@[j] == score_of(ballot_views(b@), #[trigger] r.0@[j]@),
    {
        let ghost bv = ballot_views(b@);
        let mut keys: Vec<String> = Vec::new();
        let mut scores: Vec<u64> = Vec::new();
        let mut k: usize = 0;
        assert(string_views(keys@) =~= voted_tasks(bv.take(0)));
        while k < b.len()
            invariant
                k <= b@.len(),
                bv == ballot_views(b@),
                ballot_total(bv) <= u64::MAX,
                string_views(keys@) == voted_tasks(bv.take(k as int)),
                scores@.len() == keys@.len(),
                forall|j: int| 0 <= j < scores@.len() ==> scores@[j] == score_of(bv.take(k as int), #[trigger] keys@[j]@),
            decreases b.len() - k,
        {
            let ghost pre = bv.take(k as int);
            let ghost post = bv.take(k + 1);
            proof {
                assert(post.drop_last() =~= pre);
                assert(post.last() == bv[k as int]);
                assert(bv[k as int] == (b@[k as int].0@, b@[k as int].1));
                lemma_voted_distinct(pre);
                lemma_ballot_prefix(bv, k + 1);
            }
            let w = b[k].1;
            match key_position(&keys, b[k].0.as_str()) {
                Some(j) => {
                    proof {
                        lemma_score_bounded(post, keys@[j as int]@);
                        assert(string_views(keys@)[j as int] == keys@[j as int]@);
                    }
                    let cur = scores[j];
                    let ghost old_scores = scores@;
                    scores.set(j, cur + w);
                    proof {
                        assert forall|jj: int| 0 <= jj < scores@.len() implies scores@[jj] == score_of(post, #[trigger] keys@[jj]@) by {
                            assert(score_of(post, keys@[jj]@) == score_of(pre, keys@[jj]@) + if post.last().0 == keys@[jj]@ { w as int } else { 0 });
                            if jj != j {
                                assert(string_views(keys@)[jj] == keys@[jj]@);
                                assert(string_views(keys@)[j as int] == keys@[j as int]@);
                                assert(keys@[jj]@ != keys@[j as int]@);
                                assert(scores@[jj] == old_scores[jj]);
                                assert(old_scores[jj] == score_of(pre, keys@[jj]@));
                                assert(post.last().0 == keys@[j as int]@);
                                assert(post.last().0 != keys@[jj]@);
                            } else {
                                assert(post.last().0 == keys@[j as int]@);
                                assert(old_scores[j as int] == score_of(pre, keys@[j as int]@));
                                assert(post.last().1 == w);
                                assert(scores@[j as int] == old_scores[j as int] + w);
                            }
                        }
                        assert(voted_tasks(post) == voted_tasks(pre)) by {
                            assert(voted_tasks(pre).contains(b@[k as int].0@)) by {
                                assert(voted_tasks(pre)[j as int] == b@[k as int].0@);
                            }
                        }
                    }
                },
                None => {
                    proof {
                        lemma_score_bounded(post, b@[k as int].0@);
                    }
                    let ghost old_keys = keys@;
                    keys.push(b[k].0.clone());
                    scores.push(w);
                    proof {
                        assert(string_views(keys@) =~= string_views(old_keys).push(b@[k as int].0@));
                        assert forall|jj: int| 0 <= jj < scores@.len() implies scores@[jj] == score_of(post, #[trigger] keys@[jj]@) by {
                            assert(post.last().0 == b@[k as int].0@);
                            if jj < old_keys.len() {
                                assert(string_views(old_keys)[jj] == old_keys[jj]@);
                                assert(old_keys[jj]@ != b@[k as int].0@);
                                assert(keys@[jj] == old_keys[jj]);
                            } else {
                                assert(!voted_tasks(pre).contains(b@[k as int].0@));
                                assert(score_of(pre, b@[k as int].0@) == 0);
                                assert(keys@[jj]@ == b@[k as int].0@);
                                assert(scores@[jj] == w);
                            }
                        }
                    }
                },
            }
            k = k + 1;
        }
        proof {
            assert(bv.take(bv.len() as int) =~= bv);
        }
        (keys, scores)
    }

    /// Tasks a model serves, by a weighted vote of three sources: the tasks named
    /// in its weight file's header (30 each), the hub's pipeline tag (45) and tags
    /// (10 each), and name heuristics over `"<arch_lower> <lower-cased dir_name>"`
    /// (speech 25 each, embedding 40 each; `has_tts_json` counts as a speech
    /// name).  Every task scoring at least 40, and every task with the top score,
    /// is kept; the result is in string order without repeats.
    pub fn resolve_tasks(
        header_tasks: &Vec<String>,
        pipeline_tag: Option<String>,
        tags: &Vec<String>,
        has_tts_json: bool,
        dir_name: &str,
        arch_lower: &str,
    ) -> (r: Vec<String>)
        requires
            30 * header_tasks@.len() + 10 * tags@.len() + 175 <= u64::MAX,
        ensures
            string_views(r@) == vote_outcome(
                vote_ballots(
                    string_views(header_tasks@),
                    opt_str(pipeline_tag),
                    string_views(tags@),
                    has_tts_json,
                    arch_lower@ + " "@ + lowercase(dir_name@),
                ),
            ),
    {
        let a = chars_of(arch_lower);
        let sp = crate::text::concat_str(&a, " ");
        let d = lower_chars(dir_name);
        let ident = concat_chars(&sp, &d);
        let b = Self::ballots(header_tasks, &pipeline_tag, tags, has_tts_json, &ident);
        let ghost bv = ballot_views(b@);
        let (keys, scores) = Self::tally(&b);
        let ghost voted = voted_tasks(bv);
        let mut m: u64 = 0;
        let mut j: usize = 0;
        while j < scores.len()
            invariant
                j <= scores@.len(),
                scores@.len() == keys@.len(),
                string_views(keys@) == voted,
                voted == voted_tasks(bv),
                bv == ballot_views(b@),
                forall|jj: int| 0 <= jj < scores@.len() ==> scores@[jj] == score_of(bv, #[trigger] keys@[jj]@),
                m == max_score(bv, voted.take(j as int)),
            decreases scores.len() - j,
        {
            proof {
                assert(voted.take(j + 1).drop_last() =~= voted.take(j as int));
                assert(voted.take(j + 1).last() == keys@[j as int]@);
            }
            proof {
                assert(string_views(keys@)[j as int] == keys@[j as int]@);
            }
            if scores[j] > m {
                m = scores[j];
            }
            j = j + 1;
        }
        proof {
            assert(voted.take(voted.len() as int) =~= voted);
        }
        let mut chosen: Vec<String> = Vec::new();
        let mut j: usize = 0;
        assert(string_views(chosen@) =~= kept_tasks(bv, voted.take(0)));
        while j < scores.len()
            invariant
                j <= scores@.len(),
                scores@.len() == keys@.len(),
                string_views(keys@) == voted,
                voted == voted_tasks(bv),
                bv == ballot_views(b@),
                forall|jj: int| 0 <= jj < scores@.len() ==> scores@[jj] == score_of(bv, #[trigger] keys@[jj]@),
                m == max_score(bv, voted),
                string_views(chosen@) == kept_tasks(bv, voted.take(j as int)),
            decreases scores.len() - j,
        {
            proof {
                assert(voted.take(j + 1).drop_last() =~= voted.take(j as int));
                assert(voted.take(j + 1).last() == keys@[j as int]@);
            }
            proof {
                assert(string_views(keys@)[j as int] == keys@[j as int]@);
            }
            if scores[j] >= KEEP_SCORE || (scores[j] == m && m > 0) {
                let ghost old_c = chosen@;
                chosen.push(keys[j].clone());
                proof {
                    assert(string_views(chosen@) =~= string_views(old_c).push(keys@[j as int]@));
                }
            }
            j = j + 1;
        }
        proof {
            assert(voted.take(voted.len() as int) =~= voted);
        }
        sort_strings(chosen)
    }
}


// ───────────────────────── companion JSON ─────────────────────────

/// What a model folder's companion JSON files say.
pub struct FallbackJsonMetadata {
    pub context_window: Option<String>,
    pub chat_template: Option<String>,
    pub think_start_tag: Option<String>,
    pub think_end_tag: Option<String>,
    pub architecture: Option<String>,
}

pub struct FallbackProber;

impl FallbackProber {
    /// Metadata from the values read in a model folder: the `chat_template` of
    /// `tokenizer_config.json` (a template using `<think>` gives the `<think>` /
    /// `</think>` tags), and from `config.json` the `max_position_embeddings` (as the
    /// context window) and the first of its `architectures`.
    pub fn from_values(
        chat_template: Option<String>,
        max_position_embeddings: Option<u64>,
        first_architecture: Option<String>,
    ) -> (r: FallbackJsonMetadata)
        ensures
            r.chat_template == chat_template,
            opt_str(r.think_start_tag) == (match chat_template {
                Some(t) => if contains(t@, "<think>"@) { Some("<think>"@) } else { None },
                None => None,
            }),
            opt_str(r.think_end_tag) == (match chat_template {
                Some(t) => if contains(t@, "<think>"@) { Some("</think>"@) } else { None },
                None => None,
            }),
            opt_str(r.context_window) == (match max_position_embeddings {
                Some(n) => Some(crate::text::decimal(n as nat)),
                None => None,
            }),
            r.architecture == first_architecture,
    {
        let mut think_start: Option<String> = None;
        let mut think_end: Option<String> = None;
        if let Some(t) = &chat_template {
            let tc = chars_of(t.as_str());
            if crate::text::has_sub(&tc, "<think>") {
                think_start = Some("<think>".to_owned());
                think_end = Some("</think>".to_owned());
            }
        }
        let context_window = match max_position_embeddings {
            Some(n) => Some(crate::text::decimal_string(n)),
            None => None,
        };
        FallbackJsonMetadata {
            context_window,
            chat_template,
            think_start_tag: think_start,
            think_end_tag: think_end,
            architecture: first_architecture,
        }
    }
}

/// The string at `key` of an optional JSON text.
pub open spec fn opt_json_str(text: Option<Seq<char>>, key: Seq<char>) -> Option<Seq<char>> {
    match text {
        Some(t) => crate::json::json_str_at(t, key),
        None => None,
    }
}

/// The unsigned integer at `key` of an optional JSON text.
pub open spec fn opt_json_u64(text: Option<Seq<char>>, key: Seq<char>) -> Option<u64> {
    match text {
        Some(t) => crate::json::json_u64_at(t, key),
        None => None,
    }
}

/// The first of the array at `key` of an optional JSON text, when it is a string.
pub open spec fn opt_json_first(text: Option<Seq<char>>, key: Seq<char>) -> Option<Seq<char>> {
    match text {
        Some(t) => crate::json::first_item_string(crate::json::json_items_at(t, key)),
        None => None,
    }
}

impl FallbackProber {
    /// Metadata from the texts of a folder's `tokenizer_config.json` and
    /// `config.json` (`None` for a file that is missing or unreadable): the
    /// `chat_template` of the first, the `max_position_embeddings` and the first of
    /// the `architectures` of the second, as `from_values` combines them.
    pub fn from_companion_texts(tokenizer_config: Option<&str>, config: Option<&str>) -> (r: FallbackJsonMetadata)
        ensures
            ({
                let t = opt_json_str(crate::text::opt_str_view(tokenizer_config), "chat_template"@);
                &&& opt_str(r.chat_template) == t
                &&& opt_str(r.think_start_tag) == (match t {
                    Some(x) => if contains(x, "<think>"@) { Some("<think>"@) } else { None },
                    None => None,
                })
                &&& opt_str(r.think_end_tag) == (match t {
                    Some(x) => if contains(x, "<think>"@) { Some("</think>"@) } else { None },
                    None => None,
                })
                &&& opt_str(r.context_window) == (match opt_json_u64(crate::text::opt_str_view(config), "max_position_embeddings"@) {
                    Some(n) => Some(crate::text::decimal(n as nat)),
                    None => None,
                })
                &&& opt_str(r.architecture) == opt_json_first(crate::text::opt_str_view(config), "architectures"@)
            }),
    {
        let template = match tokenizer_config {
            Some(t) => crate::json::str_at(t, "chat_template"),
            None => None,
        };
        let (max_pos, first_arch) = match config {
            Some(c) => (crate::json::u64_at(c, "max_position_embeddings"), crate::json::first_string_item(crate::json::items_at(c, "architectures"))),
            None => (None, None),
        };
        Self::from_values(template, max_pos, first_arch)
    }
}

/// The pipeline tag and the string tags of the text of a model's
/// `hf_metadata.json` (`None` when the file is missing or unreadable).
pub fn hub_metadata_from_text(text: Option<&str>) -> (r: (Option<String>, Vec<String>))
    ensures
        opt_str(r.0) == opt_json_str(crate::text::opt_str_view(text), "pipeline_tag"@),
        string_views(r.1@) == (match text {
            Some(t) => crate::json::opt_item_strings(crate::json::json_items_at(t@, "tags"@)),
            None => Seq::empty(),
        }),
{
    match text {
        Some(t) => (
            crate::json::str_at(t, "pipeline_tag"),
            crate::json::strings_of_items(crate::json::items_at(t, "tags")),
        ),
        None => {
            let v: Vec<String> = Vec::new();
            assert(string_views(v@) =~= Seq::<Seq<char>>::empty());
            (None, v)
        },
    }
}

// ───────────────────────── whole-model discovery ─────────────────────────

/// Metadata fields gathered while probing a model.
pub struct ProbedFields {
    pub architecture: String,
    pub context_window: String,
    pub parameters: String,
    pub quantization: Option<String>,
    pub chat_template: Option<String>,
    pub think_start_tag: Option<String>,
    pub think_end_tag: Option<String>,
}

pub struct ProbedView {
    pub architecture: Seq<char>,
    pub context_window: Seq<char>,
    pub parameters: Seq<char>,
    pub quantization: Option<Seq<char>>,
    pub chat_template: Option<Seq<char>>,
    pub think_start_tag: Option<Seq<char>>,
    pub think_end_tag: Option<Seq<char>>,
}

impl View for ProbedFields {
    type V = ProbedView;

    open spec fn view(&self) -> ProbedView {
        ProbedView {
            architecture: self.architecture@,
            context_window: self.context_window@,
            parameters: self.parameters@,
            quantization: opt_str(self.quantization),
            chat_template: opt_str(self.chat_template),
            think_start_tag: opt_str(self.think_start_tag),
            think_end_tag: opt_str(self.think_end_tag),
        }
    }
}

/// Is the weight file a GGUF file (by its extension)?
pub open spec fn is_gguf_path(p: Seq<char>) -> bool {
    crate::text::path_extension(p) == Some("gguf"@)
}

/// Architecture an ONNX weight file's name suggests.
pub open spec fn onnx_architecture(name: Seq<char>) -> Seq<char> {
    if contains(name, "kokoro"@) {
        "kokoro"@
    } else if contains(name, "piper"@) {
        "piper"@
    } else if contains(name, "whisper"@) {
        "whisper"@
    } else {
        "onnx-generic"@
    }
}

/// Fields straight from the weight file: the GGUF header summary when the file
/// is GGUF and its header was read, the name's architecture for other files,
/// `Unknown` labels elsewhere.
pub open spec fn probed_spec(weight: Seq<char>, g: Option<GgufProbeResult>) -> ProbedView {
    let blank = ProbedView {
        architecture: "Unknown"@,
        context_window: "Unknown"@,
        parameters: "Unknown"@,
        quantization: None,
        chat_template: None,
        think_start_tag: None,
        think_end_tag: None,
    };
    if is_gguf_path(weight) {
        match g {
            Some(p) => ProbedView {
                architecture: or_else(opt_str(p.architecture), "Unknown"@),
                context_window: or_else(opt_str(p.context_window), "Unknown"@),
                parameters: or_else(opt_str(p.parameter_count), "Unknown"@),
                quantization: opt_str(p.quantization),
                chat_template: opt_str(p.chat_template),
                think_start_tag: opt_str(p.think_start_tag),
                think_end_tag: opt_str(p.think_end_tag),
            },
            None => blank,
        }
    } else {
        ProbedView { architecture: onnx_architecture(or_else(path_file_name(weight), Seq::empty())), ..blank }
    }
}

/// A label still missing after the weight file: `Unknown` or empty.
pub open spec fn is_missing(s: Seq<char>) -> bool {
    s == "Unknown"@ || s.len() == 0
}

/// The fields after the companion JSON files fill what the weight file left open.
pub open spec fn merged_spec(f: ProbedView, fb: FallbackJsonMetadata) -> ProbedView {
    ProbedView {
        context_window: if is_missing(f.context_window) && fb.context_window is Some {
            fb.context_window->0@
        } else {
            f.context_window
        },
        architecture: if is_missing(f.architecture) && fb.architecture is Some {
            fb.architecture->0@
        } else {
            f.architecture
        },
        chat_template: if f.chat_template is None { opt_str(fb.chat_template) } else { f.chat_template },
        think_start_tag: if f.think_start_tag is None { opt_str(fb.think_start_tag) } else { f.think_start_tag },
        think_end_tag: if f.think_end_tag is None { opt_str(fb.think_end_tag) } else { f.think_end_tag },
        ..f
    }
}

fn unknown() -> (r: String)
    ensures
        r@ == "Unknown"@,
{
    "Unknown".to_owned()
}

fn or_unknown(o: Option<String>) -> (r: String)
    ensures
        r@ == or_else(opt_str(o), "Unknown"@),
{
    match o {
        Some(s) => s,
        None => unknown(),
    }
}

pub struct ModelProber;

/// Context label for a model whose window is still unknown, by slot.
pub open spec fn default_context_label(slot: crate::entities::SlotType) -> Seq<char> {
    match slot {
        crate::entities::SlotType::Tts | crate::entities::SlotType::Stt => "30s (3000 frames)"@,
        crate::entities::SlotType::Ingest | crate::entities::SlotType::Embedding => "224x224 (Images)"@,
        _ => "8k"@,
    }
}

impl ModelProber {
    /// The fields the weight file gives.
    pub fn probe_weight(weight_path: &str, gguf: Option<GgufProbeResult>) -> (r: ProbedFields)
        ensures
            r@ == probed_spec(weight_path@, gguf),
    {
        let ext = crate::text::extension_of(weight_path);
        let is_gguf = match &ext {
            Some(e) => {
                let c = chars_of(e.as_str());
                eq_str(&c, "gguf")
            },
            None => false,
        };
        if is_gguf {
            match gguf {
                Some(p) => ProbedFields {
                    architecture: or_unknown(p.architecture),
                    context_window: or_unknown(p.context_window),
                    parameters: or_unknown(p.parameter_count),
                    quantization: p.quantization,
                    chat_template: p.chat_template,
                    think_start_tag: p.think_start_tag,
                    think_end_tag: p.think_end_tag,
                },
                None => ProbedFields {
                    architecture: unknown(),
                    context_window: unknown(),
                    parameters: unknown(),
                    quantization: None,
                    chat_template: None,
                    think_start_tag: None,
                    think_end_tag: None,
                },
            }
        } else {
            let name: Vec<char> = match file_name_of(weight_path) {
                Some(n) => chars_of(n.as_str()),
                None => chars_of(""),
            };
            proof {
                reveal_strlit("");
                assert(""@ =~= Seq::<char>::empty());
            }
            let arch = if has_sub(&name, "kokoro") {
                "kokoro".to_owned()
            } else if has_sub(&name, "piper") {
                "piper".to_owned()
            } else if has_sub(&name, "whisper") {
                "whisper".to_owned()
            } else {
                "onnx-generic".to_owned()
            };
            ProbedFields {
                architecture: arch,
                context_window: unknown(),
                parameters: unknown(),
                quantization: None,
                chat_template: None,
                think_start_tag: None,
                think_end_tag: None,
            }
        }
    }

    /// Fills what the weight file left open from the companion JSON files.
    pub fn merge_fallback(f: ProbedFields, fb: FallbackJsonMetadata) -> (r: ProbedFields)
        ensures
            r@ == merged_spec(f@, fb),
    {
        let ctx = chars_of(f.context_window.as_str());
        let arch = chars_of(f.architecture.as_str());
        let ctx_missing = eq_str(&ctx, "Unknown") || ctx.len() == 0;
        let arch_missing = eq_str(&arch, "Unknown") || arch.len() == 0;
        let context_window = match fb.context_window {
            Some(c) => if ctx_missing { c } else { f.context_window },
            None => f.context_window,
        };
        let architecture = match fb.architecture {
            Some(a) => if arch_missing { a } else { f.architecture },
            None => f.architecture,
        };
        let chat_template = match f.chat_template {
            Some(t) => Some(t),
            None => fb.chat_template,
        };
        let think_start_tag = match f.think_start_tag {
            Some(t) => Some(t),
            None => fb.think_start_tag,
        };
        let think_end_tag = match f.think_end_tag {
            Some(t) => Some(t),
            None => fb.think_end_tag,
        };
        ProbedFields {
            architecture,
            context_window,
            parameters: f.parameters,
            quantization: f.quantization,
            chat_template,
            think_start_tag,
            think_end_tag,
        }
    }
}

/// Name of the model folder (its last path component).
pub open spec fn dir_name_spec(model_dir: Seq<char>) -> Seq<char> {
    or_else(path_file_name(model_dir), Seq::empty())
}

#[verifier::opaque]
/// The task vote of a discovery: no header tasks, the hub's pipeline tag and
/// tags, the `tts.json` marker, and the names of architecture and folder.
pub open spec fn discovery_votes(
    m: ProbedView,
    dir: Seq<char>,
    tag: Option<Seq<char>>,
    tags: Seq<Seq<char>>,
    tts_json: bool,
) -> Seq<Seq<char>> {
    vote_outcome(vote_ballots(Seq::empty(), tag, tags, tts_json, lowercase(m.architecture) + " "@ + lowercase(dir)))
}

/// The classification a discovery makes from the vote.
#[verifier::opaque]
pub open spec fn discovery_class(
    m: ProbedView,
    dir: Seq<char>,
    votes: Seq<Seq<char>>,
    files: Seq<Seq<char>>,
) -> crate::taxonomy::classifier::ClassificationView {
    crate::taxonomy::classifier::classify_spec(
        dir,
        if votes.len() > 0 { Some(votes[0]) } else { None },
        votes,
        files,
        Some(m.architecture),
    )
}

fn first_of(v: &Vec<String>) -> (r: Option<&str>)
    ensures
        crate::text::opt_str_view(r) == (if v@.len() > 0 { Some(v@[0]@) } else { None::<Seq<char>> }),
{
    if v.len() > 0 {
        Some(v[0].as_str())
    } else {
        None
    }
}

impl ModelProber {
    fn vote_for(
        arch: &str,
        dir_name: &str,
        pipeline_tag: Option<String>,
        tags: &Vec<String>,
        has_tts_json: bool,
    ) -> (r: Vec<String>)
        requires
            10 * tags@.len() + 175 <= u64::MAX,
        ensures
            string_views(r@) == vote_outcome(vote_ballots(Seq::empty(), opt_str(pipeline_tag), string_views(tags@), has_tts_json, lowercase(arch@) + " "@ + lowercase(dir_name@))),
    {
        let arch_lower = crate::text::to_lower(arch);
        let empty: Vec<String> = Vec::new();
        assert(string_views(empty@) =~= Seq::<Seq<char>>::empty());
        VotingArbitrator::resolve_tasks(&empty, pipeline_tag, tags, has_tts_json, dir_name, arch_lower.as_str())
    }

    fn classify_for(
        m: &ProbedFields,
        dir_name: &str,
        votes: &Vec<String>,
        filenames: &Vec<String>,
    ) -> (r: crate::taxonomy::classifier::ClassificationResult)
        ensures
            r@ == discovery_class(m@, dir_name@, string_views(votes@), string_views(filenames@)),
    {
        proof {
            reveal(discovery_class);
        }
        crate::taxonomy::classifier::UniversalModelClassifier::classify(
            dir_name,
            first_of(votes),
            votes.as_slice(),
            filenames.as_slice(),
            Some(m.architecture.as_str()),
        )
    }

    /// Capability and metadata discovery for a model folder: the weight file's
    /// fields, filled from the companion JSON files; the task vote; the
    /// classification (its capabilities carry the vote as explicit tasks); the
    /// slot (the category hint, when one is given, decides it); and the registry
    /// metadata, whose still-unknown context window gets the slot's default
    /// label.  No model is marked as needing a GPU.
    pub fn discover(
        weight_path: &str,
        model_dir: &str,
        category_hint: &str,
        gguf: Option<GgufProbeResult>,
        fallback: FallbackJsonMetadata,
        pipeline_tag: Option<String>,
        tags: &Vec<String>,
        has_tts_json: bool,
        filenames: &Vec<String>,
    ) -> (r: (crate::entities::SlotType, crate::taxonomy::rules::ModelCapabilities, crate::discovery::capabilities::RegistryModelMetadata, bool))
        requires
            10 * tags@.len() + 175 <= u64::MAX,
        ensures
            ({
                let m = merged_spec(probed_spec(weight_path@, gguf), fallback);
                let dir = dir_name_spec(model_dir@);
                let votes = discovery_votes(m, dir, opt_str(pipeline_tag), string_views(tags@), has_tts_json);
                let c = discovery_class(m, dir, votes, string_views(filenames@));
                &&& r.0 == (if category_hint@.len() > 0 {
                    crate::entities::slot_of_category(category_hint@)
                } else {
                    c.slot
                })
                &&& r.1@ == crate::taxonomy::rules::CapabilitiesView { explicit_tasks: votes, ..c.capabilities }
                &&& r.2.architecture@ == m.architecture
                &&& r.2.parameters@ == m.parameters
                &&& r.2.context_window@ == (if m.context_window == "Unknown"@ {
                    default_context_label(r.0)
                } else {
                    m.context_window
                })
                &&& opt_str(r.2.quantization) == m.quantization
                &&& r.2.bit_depth is None
                &&& opt_str(r.2.tts_family) == c.capabilities.tts_family
                &&& opt_str(r.2.stt_family) == c.capabilities.stt_family
                &&& opt_str(r.2.backend_type) == Some(if is_gguf_path(weight_path@) { "gguf"@ } else { "onnx"@ })
                &&& opt_str(r.2.think_start_tag) == m.think_start_tag
                &&& opt_str(r.2.think_end_tag) == m.think_end_tag
                &&& opt_str(r.2.chat_template) == m.chat_template
                &&& !r.3
            }),
    {
        let ext = crate::text::extension_of(weight_path);
        let is_gguf = match &ext {
            Some(e) => {
                let c = chars_of(e.as_str());
                eq_str(&c, "gguf")
            },
            None => false,
        };
        let probed = Self::probe_weight(weight_path, gguf);
        let m = Self::merge_fallback(probed, fallback);
        let dir_name: String = match file_name_of(model_dir) {
            Some(n) => n,
            None => "".to_owned(),
        };
        proof {
            reveal_strlit("");
            assert(""@ =~= Seq::<char>::empty());
        }
        let votes = Self::vote_for(m.architecture.as_str(), dir_name.as_str(), pipeline_tag, tags, has_tts_json);
        proof {
            reveal(discovery_votes);
        }
        let class = Self::classify_for(&m, dir_name.as_str(), &votes, filenames);
        let mut caps = class.capabilities;
        caps.explicit_tasks = votes;
        let hint = chars_of(category_hint);
        let slot = if hint.len() > 0 {
            crate::entities::SlotType::from_category(category_hint)
        } else {
            class.slot
        };
        let ctx = chars_of(m.context_window.as_str());
        let context_window = if eq_str(&ctx, "Unknown") {
            match slot {
                crate::entities::SlotType::Tts | crate::entities::SlotType::Stt => "30s (3000 frames)".to_owned(),
                crate::entities::SlotType::Ingest | crate::entities::SlotType::Embedding => "224x224 (Images)".to_owned(),
                _ => "8k".to_owned(),
            }
        } else {
            m.context_window
        };
        let backend = if is_gguf { "gguf".to_owned() } else { "onnx".to_owned() };
        let tts_family = match &caps.tts_family {
            Some(f) => Some(f.as_str().to_owned()),
            None => None,
        };
        let stt_family = match &caps.stt_family {
            Some(f) => Some(f.as_str().to_owned()),
            None => None,
        };
        let metadata = crate::discovery::capabilities::RegistryModelMetadata {
            architecture: m.architecture,
            parameters: m.parameters,
            context_window,
            quantization: m.quantization,
            bit_depth: None,
            tts_family,
            stt_family,
            backend_type: Some(backend),
            think_start_tag: m.think_start_tag,
            think_end_tag: m.think_end_tag,
            chat_template: m.chat_template,
        };
        (slot, caps, metadata, false)
    }
}

} // verus!
