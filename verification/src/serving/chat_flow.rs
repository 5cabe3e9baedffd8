//! Chat completions: request checks, model choice, prompt assembly and the
//! parsing of the tool triggers a model emits while streaming.
use vstd::prelude::*;
use crate::chat::TemporaryChatMode;
use crate::chat::{ContentPart, ExternalMessage, MessageContent};
use crate::text::{
    chars_of, concat_chars, concat_str, eq_str, find, find_str, lowercase, matches_at,
    occurs_at, opt_str_view, parse_usize, parse_usize_chars, slice_copy, starts_with,
    string_of, to_lower, trim, trim_chars,
};

verus! {

/// Context floor: no model is given fewer tokens of context than this.
pub const MIN_CONTEXT_TOKENS: usize = 2048;

/// What the server does with the model once a request is answered.
#[derive(Debug, Clone, Copy, PartialEq, Eq, Structural)]
pub enum KeepAlive {
    /// Unload at once (`keep_alive: 0`).
    UnloadNow,
    /// Unload after this many seconds (`keep_alive: N` minutes, `N > 0`).
    UnloadAfterSecs(u64),
    /// Leave it loaded (no `keep_alive`, or a negative one).
    Retain,
}

pub open spec fn keep_alive_spec(keep_alive: Option<i32>) -> KeepAlive {
    match keep_alive {
        Some(m) => if m == 0 {
            KeepAlive::UnloadNow
        } else if m > 0 {
            KeepAlive::UnloadAfterSecs((m * 60) as u64)
        } else {
            KeepAlive::Retain
        },
        None => KeepAlive::Retain,
    }
}

/// The keep-alive policy: minutes of retention after a request.
pub fn keep_alive_action(keep_alive: Option<i32>) -> (r: KeepAlive)
    ensures
        r == keep_alive_spec(keep_alive),
{
    match keep_alive {
        Some(m) => {
            if m == 0 {
                KeepAlive::UnloadNow
            } else if m > 0 {
                let mins: u64 = m as u64;
                KeepAlive::UnloadAfterSecs(mins * 60)
            } else {
                KeepAlive::Retain
            }
        },
        None => KeepAlive::Retain,
    }
}

/// Context window of an installed model, with the floor applied; an unknown or
/// unreadable window counts as the floor.
pub open spec fn context_limit_spec(window: Option<Seq<char>>) -> usize {
    let n: usize = match window {
        Some(w) => match parse_usize(w) {
            Some(n) => n,
            None => MIN_CONTEXT_TOKENS,
        },
        None => MIN_CONTEXT_TOKENS,
    };
    if n < MIN_CONTEXT_TOKENS { MIN_CONTEXT_TOKENS } else { n }
}

pub fn dynamic_context_limit(context_window: Option<&str>) -> (r: usize)
    ensures
        r == context_limit_spec(opt_str_view(context_window)),
        r >= MIN_CONTEXT_TOKENS,
{
    let n: usize = match context_window {
        Some(w) => {
            let c = chars_of(w);
            match parse_usize_chars(&c) {
                Some(n) => n,
                None => MIN_CONTEXT_TOKENS,
            }
        },
        None => MIN_CONTEXT_TOKENS,
    };
    if n < MIN_CONTEXT_TOKENS { MIN_CONTEXT_TOKENS } else { n }
}

/// A chat request refused before any model work.
#[derive(Debug, Clone, Copy, PartialEq, Eq, Structural)]
pub enum ChatRequestError {
    /// `max_tokens` was given as 0.
    MaxTokensOutOfRange,
    /// No model path could be found for the slot or the override.
    ModelNotFound,
}

/// The message a chat refusal is answered with; `slot` is the target slot.
pub open spec fn chat_error_message(e: ChatRequestError, slot: Seq<char>) -> Seq<char> {
    match e {
        ChatRequestError::MaxTokensOutOfRange => "max_tokens must be greater than or equal to 1"@,
        ChatRequestError::ModelNotFound => "No model is currently loaded in slot '"@ + slot
            + "' and no valid override was provided."@,
    }
}

impl ChatRequestError {
    /// The HTTP status the API answers this error with: bad request for an out-of-range
    /// `max_tokens`; a missing model is reported in an ordinary (OK) reply.
    pub fn status(&self) -> (r: u16)
        ensures
            r == match *self {
                ChatRequestError::MaxTokensOutOfRange => 400u16,
                ChatRequestError::ModelNotFound => 200u16,
            },
    {
        match self {
            ChatRequestError::MaxTokensOutOfRange => 400,
            ChatRequestError::ModelNotFound => 200,
        }
    }

    /// The request parameter the error is about, if any.
    pub fn param(&self) -> (r: Option<&'static str>)
        ensures
            crate::text::opt_str_view(r) == match *self {
                ChatRequestError::MaxTokensOutOfRange => Some("max_tokens"@),
                ChatRequestError::ModelNotFound => None::<Seq<char>>,
            },
    {
        match self {
            ChatRequestError::MaxTokensOutOfRange => Some("max_tokens"),
            ChatRequestError::ModelNotFound => None,
        }
    }

    /// The error `type` the API reports.
    pub fn error_type(&self) -> (r: &'static str)
        ensures
            r@ == "invalid_request_error"@,
    {
        "invalid_request_error"
    }

    /// The error message the API reports, for a request on the slot `slot`.
    pub fn message(&self, slot: &str) -> (r: String)
        ensures
            r@ == chat_error_message(*self, slot@),
    {
        match self {
            ChatRequestError::MaxTokensOutOfRange => "max_tokens must be greater than or equal to 1".to_owned(),
            ChatRequestError::ModelNotFound => {
                let a = concat_str(&chars_of("No model is currently loaded in slot '"), slot);
                string_of(&concat_str(&a, "' and no valid override was provided."))
            },
        }
    }

    /// The `code` the API reports for this error.
    pub fn code(&self) -> (r: String)
        ensures
            r@ == match *self {
                ChatRequestError::MaxTokensOutOfRange => "parameter_out_of_range"@,
                ChatRequestError::ModelNotFound => "model_not_found"@,
            },
    {
        match self {
            ChatRequestError::MaxTokensOutOfRange => "parameter_out_of_range".to_owned(),
            ChatRequestError::ModelNotFound => "model_not_found".to_owned(),
        }
    }
}

/// `max_tokens` checked (it must be at least 1) and clamped to the context limit.
pub fn checked_max_tokens(max_tokens: Option<usize>, limit: usize) -> (r: Result<Option<usize>, ChatRequestError>)
    ensures
        r == (match max_tokens {
            Some(t) => if t == 0 {
                Err(ChatRequestError::MaxTokensOutOfRange)
            } else {
                Ok(Some(if t < limit { t } else { limit }))
            },
            None => Ok(None),
        }),
{
    match max_tokens {
        Some(t) => {
            if t == 0 {
                Err(ChatRequestError::MaxTokensOutOfRange)
            } else {
                Ok(Some(if t < limit { t } else { limit }))
            }
        },
        None => Ok(None),
    }
}

/// The boundary check on `max_tokens`, made before anything else: it must be at
/// least 1 when given.
pub fn check_max_tokens(max_tokens: Option<usize>) -> (r: Result<(), ChatRequestError>)
    ensures
        r == (if max_tokens == Some(0usize) { Err(ChatRequestError::MaxTokensOutOfRange) } else { Ok(()) }),
{
    match max_tokens {
        Some(t) => if t == 0 { Err(ChatRequestError::MaxTokensOutOfRange) } else { Ok(()) },
        None => Ok(()),
    }
}

/// `max_tokens` clamped to the context limit, once it has passed the check.
pub fn clamp_max_tokens(max_tokens: Option<usize>, limit: usize) -> (r: Option<usize>)
    ensures
        r == (match max_tokens {
            Some(t) => Some(if t < limit { t } else { limit }),
            None => None,
        }),
{
    match max_tokens {
        Some(t) => Some(if t < limit { t } else { limit }),
        None => None,
    }
}

/// An empty last message with `keep_alive: 0` asks only for the model to be unloaded.
pub fn is_unload_only_request(last_message: &str, keep_alive: Option<i32>) -> (r: bool)
    ensures
        r == (last_message@.len() == 0 && keep_alive == Some(0i32)),
{
    let c = chars_of(last_message);
    c.len() == 0 && keep_alive == Some(0i32)
}

/// The slot a chat request runs on: the vision slot when the request carries an
/// image and a vision slot is set, else the chat slot.
pub fn chat_target_slot(has_image: bool, vision_slot_set: bool) -> (r: &'static str)
    ensures
        r@ == (if has_image && vision_slot_set { "vision_slot"@ } else { "chat_slot"@ }),
{
    if has_image && vision_slot_set {
        "vision_slot"
    } else {
        "chat_slot"
    }
}

/// A strict temporary chat bypasses the engine's memory.
pub fn skips_memory(mode: Option<TemporaryChatMode>) -> (r: bool)
    ensures
        r == (mode == Some(TemporaryChatMode::Strict)),
{
    match mode {
        Some(TemporaryChatMode::Strict) => true,
        _ => false,
    }
}

/// Is the request's model override usable: present and not blank?
pub open spec fn is_blank(s: Seq<char>) -> bool {
    crate::text::trim(s).len() == 0
}

/// The model a chat request runs: the override when it is given, not blank, and
/// resolves to a path; otherwise the slot's model under the system name.  `None`
/// when neither gives a path.
pub fn choose_chat_model(
    requested: Option<&str>,
    requested_path: Option<String>,
    slot_path: Option<String>,
) -> (r: Option<(String, String)>)
    ensures
        match (requested, requested_path) {
            (Some(m), Some(p)) if !is_blank(m@) => r matches Some((path, name)) && path@ == p@ && name@ == m@,
            _ => match slot_path {
                Some(p) => r matches Some((path, name)) && path@ == p@ && name@ == "default-system-model"@,
                None => r is None,
            },
        },
{
    if let Some(m) = requested {
        let mc = chars_of(m);
        let t = crate::text::trim_chars(&mc);
        if t.len() > 0 {
            if let Some(p) = requested_path {
                return Some((p, m.to_owned()));
            }
        }
    }
    match slot_path {
        Some(p) => Some((p, "default-system-model".to_owned())),
        None => None,
    }
}

/// A chat turn as it is sent to the engine: role and flattened content.
pub struct ChatTurn {
    pub role: String,
    pub content: String,
}

impl View for ChatTurn {
    type V = (Seq<char>, Seq<char>);

    open spec fn view(&self) -> (Seq<char>, Seq<char>) {
        (self.role@, self.content@)
    }
}

pub open spec fn turn_views(ts: Seq<ChatTurn>) -> Seq<(Seq<char>, Seq<char>)> {
    ts.map_values(|t: ChatTurn| t@)
}

/// Index of the first turn whose lower-cased role is `system`, from `k` on.
pub open spec fn first_system_from(ts: Seq<(Seq<char>, Seq<char>)>, k: int) -> Option<int>
    decreases ts.len() - k,
{
    if k >= ts.len() {
        None
    } else if lowercase(ts[k].0) == "system"@ {
        Some(k)
    } else {
        first_system_from(ts, k + 1)
    }
}

/// The turns after a response constraint is injected: appended to the first
/// system message after a blank line, or, when there is none, sent as a new
/// system message in front.  An empty constraint changes nothing.
pub open spec fn with_constraint(ts: Seq<(Seq<char>, Seq<char>)>, c: Seq<char>) -> Seq<(Seq<char>, Seq<char>)> {
    if c.len() == 0 {
        ts
    } else {
        match first_system_from(ts, 0) {
            Some(k) => ts.update(k, (ts[k].0, ts[k].1 + "\n\n"@ + c)),
            None => seq![("system"@, c)] + ts,
        }
    }
}

/// The turns after a matched skill body is put before the last message.
pub open spec fn with_skill(ts: Seq<(Seq<char>, Seq<char>)>, body: Seq<char>) -> Seq<(Seq<char>, Seq<char>)> {
    if ts.len() == 0 {
        ts
    } else {
        ts.update(ts.len() - 1, (ts.last().0, body + "\n\n"@ + ts.last().1))
    }
}

fn is_system_role(role: &str) -> (r: bool)
    ensures
        r == (lowercase(role@) == "system"@),
{
    let l = to_lower(role);
    let c = chars_of(l.as_str());
    eq_str(&c, "system")
}

/// Injects a response constraint into the conversation.
pub fn inject_constraint(turns: &mut Vec<ChatTurn>, constraint: &str)
    ensures
        turn_views(final(turns)@) == with_constraint(turn_views(old(turns)@), constraint@),
{
    let ghost before = turn_views(turns@);
    let cc = chars_of(constraint);
    if cc.len() == 0 {
        return;
    }
    let mut i: usize = 0;
    while i < turns.len()
        invariant
            before == turn_views(turns@),
            turns@ == old(turns)@,
            i <= turns@.len(),
            first_system_from(before, 0) == first_system_from(before, i as int),
            cc@ == constraint@,
            cc@.len() > 0,
        decreases turns.len() - i,
    {
        if is_system_role(turns[i].role.as_str()) {
            assert(before[i as int] == turns@[i as int]@);
            let prev = chars_of(turns[i].content.as_str());
            let a = concat_str(&prev, "\n\n");
            let b = concat_chars(&a, &cc);
            let role = turns[i].role.clone();
            let t = ChatTurn { role, content: string_of(&b) };
            turns.set(i, t);
            assert(turn_views(turns@) =~= with_constraint(before, constraint@));
            return;
        }
        assert(before[i as int] == turns@[i as int]@);
        i = i + 1;
    }
    let t = ChatTurn { role: "system".to_owned(), content: constraint.to_owned() };
    turns.insert(0, t);
    assert(turn_views(turns@) =~= with_constraint(before, constraint@));
}

/// Puts a matched skill body before the content of the last turn.
pub fn inject_skill(turns: &mut Vec<ChatTurn>, body: &str)
    ensures
        turn_views(final(turns)@) == with_skill(turn_views(old(turns)@), body@),
{
    let ghost before = turn_views(turns@);
    let n = turns.len();
    if n == 0 {
        return;
    }
    let bc = chars_of(body);
    let a = concat_str(&bc, "\n\n");
    let prev = chars_of(turns[n - 1].content.as_str());
    let b = concat_chars(&a, &prev);
    let role = turns[n - 1].role.clone();
    let t = ChatTurn { role, content: string_of(&b) };
    turns.set(n - 1, t);
    assert(turn_views(turns@) =~= with_skill(before, body@));
}

/// Does the message carry an image part?
pub open spec fn message_has_image(m: ExternalMessage) -> bool {
    match m.content {
        MessageContent::Array(parts) => exists|j: int| 0 <= j < parts@.len() && (#[trigger] parts@[j]) is ImageUrl,
        MessageContent::Text(_) => false,
    }
}

fn parts_have_image(parts: &Vec<ContentPart>) -> (r: bool)
    ensures
        r == exists|j: int| 0 <= j < parts@.len() && (#[trigger] parts@[j]) is ImageUrl,
{
    let mut j: usize = 0;
    while j < parts.len()
        invariant
            j <= parts@.len(),
            forall|k: int| 0 <= k < j ==> !((#[trigger] parts@[k]) is ImageUrl),
        decreases parts.len() - j,
    {
        if let ContentPart::ImageUrl { .. } = &parts[j] {
            return true;
        }
        j = j + 1;
    }
    false
}

/// Does any message of the request carry an image?
pub fn has_image(messages: &Vec<ExternalMessage>) -> (r: bool)
    ensures
        r == exists|i: int| 0 <= i < messages@.len() && message_has_image(#[trigger] messages@[i]),
{
    let mut i: usize = 0;
    while i < messages.len()
        invariant
            i <= messages@.len(),
            forall|k: int| 0 <= k < i ==> !message_has_image(#[trigger] messages@[k]),
        decreases messages.len() - i,
    {
        let found = match &messages[i].content {
            MessageContent::Array(parts) => parts_have_image(parts),
            MessageContent::Text(_) => false,
        };
        if found {
            return true;
        }
        i = i + 1;
    }
    false
}

// ───────────────────────── tool triggers ─────────────────────────

/// Last position at or before `k` where `p` occurs in `s`.
pub open spec fn rfind_from(s: Seq<char>, p: Seq<char>, k: int) -> Option<int>
    decreases k + 1,
{
    if k < 0 {
        None
    } else if occurs_at(s, p, k) {
        Some(k)
    } else {
        rfind_from(s, p, k - 1)
    }
}

/// Last position where `p` occurs in `s` (`str::rfind`).
pub open spec fn rfind(s: Seq<char>, p: Seq<char>) -> Option<int> {
    rfind_from(s, p, s.len() - p.len())
}

proof fn lemma_rfind_from_some(s: Seq<char>, p: Seq<char>, k: int)
    requires
        rfind_from(s, p, k) is Some,
    ensures
        occurs_at(s, p, rfind_from(s, p, k)->0),
    decreases k + 1,
{
    if k >= 0 && !occurs_at(s, p, k) {
        lemma_rfind_from_some(s, p, k - 1);
    }
}

/// A found last occurrence lies inside `s`.
pub proof fn lemma_rfind_some(s: Seq<char>, p: Seq<char>)
    requires
        rfind(s, p) is Some,
    ensures
        occurs_at(s, p, rfind(s, p)->0),
{
    lemma_rfind_from_some(s, p, s.len() - p.len());
}

/// `s` with every leading copy of `p` removed (`str::trim_start_matches`).
pub open spec fn strip_prefixes(s: Seq<char>, p: Seq<char>) -> Seq<char>
    decreases s.len(),
{
    if p.len() > 0 && starts_with(s, p) {
        strip_prefixes(s.subrange(p.len() as int, s.len() as int), p)
    } else {
        s
    }
}

/// The text of a token from its last trigger opening on.
pub open spec fn trigger_tail(t: Seq<char>) -> Seq<char> {
    match rfind(t, "<TRIGGER:"@) {
        Some(i) => t.subrange(i, t.len() as int),
        None => t,
    }
}

/// End of a trigger header: the first `>` of the tail, or 0.
pub open spec fn header_end(c: Seq<char>) -> int {
    match find(c, ">"@) {
        Some(i) => i,
        None => 0,
    }
}

/// End of a trigger payload: the first `</TRIGGER>` of the tail, or its end.
pub open spec fn payload_end(c: Seq<char>) -> int {
    match find(c, "</TRIGGER>"@) {
        Some(i) => i,
        None => c.len() as int,
    }
}

/// The token holds both a trigger opening and a trigger close.
pub open spec fn has_trigger(t: Seq<char>) -> bool {
    rfind(t, "<TRIGGER:"@) is Some && find(t, "</TRIGGER>"@) is Some
}

/// The payload of the trigger starts no later than it ends (otherwise the
/// payload slice is out of order).
pub open spec fn trigger_in_order(t: Seq<char>) -> bool {
    has_trigger(t) ==> header_end(trigger_tail(t)) + 1 <= payload_end(trigger_tail(t))
}

/// The name field of a header: up to the next `:`.
pub open spec fn up_to_colon(s: Seq<char>) -> Seq<char> {
    match find(s, ":"@) {
        Some(j) => s.subrange(0, j),
        None => s,
    }
}

/// Kind, name and payload of the trigger in `t`: the header `<TRIGGER:kind:name>`
/// (a header without `:` names an extension), then the payload, trimmed, up to
/// `</TRIGGER>`.
pub open spec fn trigger_fields(t: Seq<char>) -> (Seq<char>, Seq<char>, Seq<char>) {
    let c = trigger_tail(t);
    let he = header_end(c);
    let header = strip_prefixes(c.subrange(0, he), "<TRIGGER:"@);
    let payload = trim(c.subrange(he + 1, payload_end(c)));
    match find(header, ":"@) {
        Some(i) => (header.subrange(0, i), up_to_colon(header.subrange(i + 1, header.len() as int)), payload),
        None => ("extension"@, header, payload),
    }
}

/// A tool call a model asked for in its output.
pub struct ToolTrigger {
    pub kind: String,
    pub name: String,
    pub payload: String,
}

impl View for ToolTrigger {
    type V = (Seq<char>, Seq<char>, Seq<char>);

    open spec fn view(&self) -> (Seq<char>, Seq<char>, Seq<char>) {
        (self.kind@, self.name@, self.payload@)
    }
}

/// Last position of `p` in `s`.
pub fn rfind_chars(s: &[char], p: &[char]) -> (r: Option<usize>)
    ensures
        match r {
            Some(i) => rfind(s@, p@) == Some(i as int),
            None => rfind(s@, p@) is None,
        },
{
    if p.len() > s.len() {
        return None;
    }
    let mut k: usize = s.len() - p.len();
    loop
        invariant
            k + p@.len() <= s@.len(),
            rfind(s@, p@) == rfind_from(s@, p@, k as int),
        decreases k,
    {
        if matches_at(s, p, k) {
            return Some(k);
        }
        if k == 0 {
            assert(rfind_from(s@, p@, -1) is None);
            return None;
        }
        k = k - 1;
    }
}

/// `s` with every leading copy of `p` removed.
pub fn strip_prefixes_chars(s: &[char], p: &[char]) -> (r: Vec<char>)
    ensures
        r@ == strip_prefixes(s@, p@),
{
    let mut start: usize = 0;
    if p.len() == 0 {
        return slice_copy(s, 0, s.len());
    }
    assert(s@.subrange(0, s@.len() as int) =~= s@);
    loop
        invariant
            start <= s@.len(),
            p@.len() > 0,
            strip_prefixes(s@, p@) == strip_prefixes(s@.subrange(start as int, s@.len() as int), p@),
        decreases s.len() - start,
    {
        let rest = slice_copy(s, start, s.len());
        if matches_at(&rest, p, 0) {
            assert(starts_with(rest@, p@));
            assert(rest@.subrange(p@.len() as int, rest@.len() as int) =~= s@.subrange(start + p@.len(), s@.len() as int));
            start = start + p.len();
        } else {
            assert(!starts_with(rest@, p@));
            return rest;
        }
    }
}

/// Does the token's trigger have its payload in order?  Slicing the payload out of
/// a trigger that is not in order would fail, so callers test this first.
pub fn trigger_is_in_order(token: &str) -> (r: bool)
    ensures
        r == trigger_in_order(token@),
{
    let t = chars_of(token);
    let open = chars_of("<TRIGGER:");
    let start = match rfind_chars(&t, &open) {
        Some(i) => i,
        None => return true,
    };
    proof {
        lemma_rfind_from_some(t@, open@, t@.len() - open@.len());
    }
    if find_str(&t, "</TRIGGER>").is_none() {
        return true;
    }
    let c = slice_copy(&t, start, t.len());
    let he: usize = match find_str(&c, ">") {
        Some(i) => i,
        None => 0,
    };
    let pe: usize = match find_str(&c, "</TRIGGER>") {
        Some(i) => i,
        None => c.len(),
    };
    he < pe
}

/// The tool trigger a streamed token carries, if it carries one.
pub fn parse_tool_trigger(token: &str) -> (r: Option<ToolTrigger>)
    requires
        trigger_in_order(token@),
    ensures
        match r {
            Some(tt) => has_trigger(token@) && tt@ == trigger_fields(token@),
            None => !has_trigger(token@),
        },
{
    let t = chars_of(token);
    let open = chars_of("<TRIGGER:");
    let start = match rfind_chars(&t, &open) {
        Some(i) => i,
        None => return None,
    };
    proof {
        lemma_rfind_from_some(t@, open@, t@.len() - open@.len());
    }
    if find_str(&t, "</TRIGGER>").is_none() {
        return None;
    }
    let c = slice_copy(&t, start, t.len());
    proof {
        crate::text::lemma_find(c@, ">"@);
        crate::text::lemma_find(c@, "</TRIGGER>"@);
    }
    assert(c@ == trigger_tail(token@));
    let he: usize = match find_str(&c, ">") {
        Some(i) => i,
        None => 0,
    };
    let pe: usize = match find_str(&c, "</TRIGGER>") {
        Some(i) => i,
        None => c.len(),
    };
    let raw_header = slice_copy(&c, 0, he);
    let header = strip_prefixes_chars(&raw_header, &open);
    let raw_payload = slice_copy(&c, he + 1, pe);
    let payload = trim_chars(&raw_payload);
    proof {
        reveal_strlit(":");
        crate::text::lemma_find(header@, ":"@);
    }
    let (kind, name) = match find_str(&header, ":") {
        Some(i) => {
            assert(occurs_at(header@, ":"@, i as int));
            assert(i + 1 <= header@.len());
            let hl = header.len();
            assert(i < hl);
            let k = slice_copy(&header, 0, i);
            let rest = slice_copy(&header, i + 1, hl);
            proof {
                crate::text::lemma_find(rest@, ":"@);
            }
            let n = match find_str(&rest, ":") {
                Some(j) => slice_copy(&rest, 0, j),
                None => rest,
            };
            (k, n)
        },
        None => (chars_of("extension"), header),
    };
    Some(ToolTrigger { kind: string_of(&kind), name: string_of(&name), payload: string_of(&payload) })
}

/// The prompt that resumes generation after a tool ran.
pub open spec fn pivot_prompt_spec(kind: Seq<char>, name: Seq<char>, result: Seq<char>) -> Seq<char> {
    "<result:"@ + kind + ":"@ + name + ">\n"@ + result
        + "\n</result>\nNow, provide the final conversational answer to the user based on the tool result above. Do NOT use any tools. Just answer the user directly.\n"@
}

pub fn pivot_prompt(kind: &str, name: &str, result: &str) -> (r: String)
    ensures
        r@ == pivot_prompt_spec(kind@, name@, result@),
{
    let a = chars_of("<result:");
    let b = concat_chars(&a, &chars_of(kind));
    let c = concat_str(&b, ":");
    let d = concat_chars(&c, &chars_of(name));
    let e = concat_str(&d, ">\n");
    let f = concat_chars(&e, &chars_of(result));
    let g = concat_str(&f, "\n</result>\nNow, provide the final conversational answer to the user based on the tool result above. Do NOT use any tools. Just answer the user directly.\n");
    string_of(&g)
}

// ───────────────────────── model header info ─────────────────────────

/// Context window and reasoning tags read from a loaded model's header entries,
/// in order: a `context_length` key with a number sets the window, a
/// `think_start` / `thought_start` key the opening tag, a `think_close` /
/// `think_end` / `thought_end` key the closing tag; later entries win.
pub open spec fn header_fields(ps: Seq<(Seq<char>, Seq<char>)>, allocated: usize) -> (usize, Seq<char>, Seq<char>)
    decreases ps.len(),
{
    if ps.len() == 0 {
        (allocated, Seq::empty(), Seq::empty())
    } else {
        let prev = header_fields(ps.drop_last(), allocated);
        let k = ps.last().0;
        let v = ps.last().1;
        let ctx = if crate::text::contains(k, "context_length"@) && parse_usize(v) is Some {
            parse_usize(v)->0
        } else {
            prev.0
        };
        let start = if crate::text::contains(k, "think_start"@) || crate::text::contains(k, "thought_start"@) {
            v
        } else {
            prev.1
        };
        let close = if crate::text::contains(k, "think_close"@) || crate::text::contains(k, "think_end"@)
            || crate::text::contains(k, "thought_end"@) {
            v
        } else {
            prev.2
        };
        (ctx, start, close)
    }
}

pub open spec fn pair_strings(ps: Seq<(String, String)>) -> Seq<(Seq<char>, Seq<char>)> {
    ps.map_values(|p: (String, String)| (p.0@, p.1@))
}

pub fn model_header_fields(meta: &Vec<(String, String)>, allocated: usize) -> (r: (usize, String, String))
    ensures
        (r.0, r.1@, r.2@) == header_fields(pair_strings(meta@), allocated),
{
    let ghost g = pair_strings(meta@);
    let mut ctx = allocated;
    let mut start = String::new();
    let mut close = String::new();
    let mut i: usize = 0;
    assert(g.subrange(0, 0) =~= Seq::<(Seq<char>, Seq<char>)>::empty());
    while i < meta.len()
        invariant
            g == pair_strings(meta@),
            i <= meta@.len(),
            (ctx, start@, close@) == header_fields(g.subrange(0, i as int), allocated),
        decreases meta.len() - i,
    {
        assert(g.subrange(0, i + 1).drop_last() =~= g.subrange(0, i as int));
        assert(g[i as int] == (meta@[i as int].0@, meta@[i as int].1@));
        let k = chars_of(meta[i].0.as_str());
        let v = chars_of(meta[i].1.as_str());
        if crate::text::has_sub(&k, "context_length") {
            if let Some(n) = parse_usize_chars(&v) {
                ctx = n;
            }
        }
        if crate::text::has_sub(&k, "think_start") || crate::text::has_sub(&k, "thought_start") {
            start = meta[i].1.as_str().to_owned();
        }
        if crate::text::has_sub(&k, "think_close") || crate::text::has_sub(&k, "think_end")
            || crate::text::has_sub(&k, "thought_end") {
            close = meta[i].1.as_str().to_owned();
        }
        i = i + 1;
    }
    assert(g.subrange(0, meta@.len() as int) =~= g);
    (ctx, start, close)
}


// ───────────────────────── streaming with tools ─────────────────────────

/// Generation passes a streamed chat request may make: the first, and one more
/// after each tool call, up to this many in all.
pub const CHAT_STREAM_PASSES: u8 = 3;

/// What happens next in a streamed chat reply.
#[derive(Debug, Clone, PartialEq, Eq)]
pub enum StreamEvent {
    /// The engine produced a token.
    Token(String),
    /// The token stream closed.
    StreamEnded,
    /// After a tool ran, the engine answered the resumed prompt with a new stream.
    NewStream,
    /// After a tool ran, the engine answered the resumed prompt without a stream.
    NoStream,
}

/// What the server does with an event.
#[derive(Debug, Clone, Copy, PartialEq, Eq, Structural)]
pub enum StreamAction {
    /// Send the token to the client as content.
    Emit,
    /// Parse the tool trigger, run the tool, report it and resume the model with the
    /// tool's result (the engine's answer comes back as the next event).
    RunTool,
    /// Read the new stream.
    ReadOn,
    /// The reply is complete.
    Finish,
}

/// Is a streamed token the engine's end marker (`[DONE]` up to surrounding
/// whitespace)?
pub open spec fn is_done_token(t: Seq<char>) -> bool {
    trim(t) == "[DONE]"@
}

/// Does a streamed token carry a complete tool trigger?
pub open spec fn carries_trigger(t: Seq<char>) -> bool {
    crate::text::contains(t, "<TRIGGER:"@) && crate::text::contains(t, "</TRIGGER>"@)
}

/// The step of the streaming loop: from the passes still allowed after the
/// current one and an event, the passes left and the action.  A token is the end
/// marker (finish), a trigger (run the tool) or content (emit); a closed stream
/// finishes; a new stream after a tool is read while passes are left, which uses
/// one; no stream finishes.
pub open spec fn chat_stream_spec(passes_left: u8, event: StreamEvent) -> (u8, StreamAction) {
    match event {
        StreamEvent::Token(t) => if is_done_token(t@) {
            (passes_left, StreamAction::Finish)
        } else if carries_trigger(t@) {
            (passes_left, StreamAction::RunTool)
        } else {
            (passes_left, StreamAction::Emit)
        },
        StreamEvent::StreamEnded => (passes_left, StreamAction::Finish),
        StreamEvent::NewStream => if passes_left > 0 {
            ((passes_left - 1) as u8, StreamAction::ReadOn)
        } else {
            (0u8, StreamAction::Finish)
        },
        StreamEvent::NoStream => (passes_left, StreamAction::Finish),
    }
}

/// One step of the streaming loop (see `chat_stream_spec`).  The loop starts in
/// its first pass with `CHAT_STREAM_PASSES - 1` passes left.
pub fn chat_stream_step(passes_left: u8, event: &StreamEvent) -> (r: (u8, StreamAction))
    ensures
        r == chat_stream_spec(passes_left, *event),
{
    match event {
        StreamEvent::Token(t) => {
            let c = chars_of(t.as_str());
            let tc = trim_chars(&c);
            if eq_str(&tc, "[DONE]") {
                (passes_left, StreamAction::Finish)
            } else if crate::text::has_sub(&c, "<TRIGGER:") && crate::text::has_sub(&c, "</TRIGGER>") {
                (passes_left, StreamAction::RunTool)
            } else {
                (passes_left, StreamAction::Emit)
            }
        },
        StreamEvent::StreamEnded => (passes_left, StreamAction::Finish),
        StreamEvent::NewStream => if passes_left > 0 {
            (passes_left - 1, StreamAction::ReadOn)
        } else {
            (0, StreamAction::Finish)
        },
        StreamEvent::NoStream => (passes_left, StreamAction::Finish),
    }
}

} // verus!
