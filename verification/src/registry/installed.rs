//! The installed-model registry's view of a model folder: which entries are
//! weight files, which are extras, and the registry entry built from them.
use vstd::prelude::*;
use crate::discovery::capabilities::{RegistryModelFile, RegistryModelMetadata};
use crate::entities::{slot_name, slot_tasks, SlotType};
use crate::taxonomy::rules::ModelCapabilities;
use crate::text::{chars_of, ends_with, eq_str, has_prefix, has_suffix, starts_with, string_views};
use crate::order::{lex_le, lex_le_chars};
use crate::serving::audio_flow::{TTS_HELPER_MARKERS, TTS_MAIN_MARKERS};
use vstd::relations::sorted_by;

verus! {

/// Marker file the engine leaves in a ready model folder.
pub const READY_MARKER: &'static str = "cluaiz-engine.ready";

/// An entry of a model folder: its name, size, and whether it is a directory.
pub struct FolderItem {
    pub name: String,
    pub size: u64,
    pub is_dir: bool,
}

/// A weight file of a model folder.
pub struct WeightFile {
    pub name: String,
    pub size: u64,
}

/// A non-weight entry of a model folder, kept for the record.
pub struct ExtraItem {
    pub name: String,
    pub is_dir: bool,
}

/// Entries the scan looks at: not hidden, not the ready marker.
pub open spec fn is_listed(name: Seq<char>) -> bool {
    !starts_with(name, "."@) && name != READY_MARKER@
}

/// Weight files: `.gguf` or `.onnx`.
pub open spec fn is_weight(name: Seq<char>) -> bool {
    ends_with(name, ".gguf"@) || ends_with(name, ".onnx"@)
}

pub open spec fn item_view(i: FolderItem) -> (Seq<char>, u64, bool) {
    (i.name@, i.size, i.is_dir)
}

/// The weight files among `items`, in order, as (name, size).
pub open spec fn weights_of(items: Seq<(Seq<char>, u64, bool)>) -> Seq<(Seq<char>, u64)>
    decreases items.len(),
{
    if items.len() == 0 {
        Seq::empty()
    } else {
        let rest = weights_of(items.drop_last());
        let it = items.last();
        if is_listed(it.0) && !it.2 && is_weight(it.0) { rest.push((it.0, it.1)) } else { rest }
    }
}

/// The other listed entries, in order, as (name, is directory).
pub open spec fn extras_of(items: Seq<(Seq<char>, u64, bool)>) -> Seq<(Seq<char>, bool)>
    decreases items.len(),
{
    if items.len() == 0 {
        Seq::empty()
    } else {
        let rest = extras_of(items.drop_last());
        let it = items.last();
        if is_listed(it.0) && (it.2 || !is_weight(it.0)) { rest.push((it.0, it.2)) } else { rest }
    }
}

pub open spec fn item_views(items: Seq<FolderItem>) -> Seq<(Seq<char>, u64, bool)> {
    items.map_values(|i: FolderItem| item_view(i))
}

pub open spec fn weight_views(ws: Seq<WeightFile>) -> Seq<(Seq<char>, u64)> {
    ws.map_values(|w: WeightFile| (w.name@, w.size))
}

pub open spec fn extra_views(es: Seq<ExtraItem>) -> Seq<(Seq<char>, bool)> {
    es.map_values(|e: ExtraItem| (e.name@, e.is_dir))
}

fn listed_name(name: &str) -> (r: bool)
    ensures
        r == is_listed(name@),
{
    let c = chars_of(name);
    !has_prefix(&c, ".") && !eq_str(&c, READY_MARKER)
}

fn weight_name(name: &str) -> (r: bool)
    ensures
        r == is_weight(name@),
{
    let c = chars_of(name);
    has_suffix(&c, ".gguf") || has_suffix(&c, ".onnx")
}

/// Splits a model folder's entries into weight files and extras.
pub fn split_folder(items: &Vec<FolderItem>) -> (r: (Vec<WeightFile>, Vec<ExtraItem>))
    ensures
        weight_views(r.0@) == weights_of(item_views(items@)),
        extra_views(r.1@) == extras_of(item_views(items@)),
{
    let ghost g = item_views(items@);
    let mut ws: Vec<WeightFile> = Vec::new();
    let mut es: Vec<ExtraItem> = Vec::new();
    let mut i: usize = 0;
    while i < items.len()
        invariant
            g == item_views(items@),
            i <= items@.len(),
            weight_views(ws@) == weights_of(g.subrange(0, i as int)),
            extra_views(es@) == extras_of(g.subrange(0, i as int)),
        decreases items.len() - i,
    {
        let ghost next = g.subrange(0, i + 1);
        assert(next.drop_last() =~= g.subrange(0, i as int));
        assert(next.last() == item_view(items@[i as int]));
        let name = items[i].name.as_str();
        let listed = listed_name(name);
        let weight = weight_name(name);
        let is_dir = items[i].is_dir;
        if listed && !is_dir && weight {
            ws.push(WeightFile { name: name.to_owned(), size: items[i].size });
            assert(weight_views(ws@) =~= weights_of(next));
        } else {
            assert(weight_views(ws@) =~= weights_of(next));
        }
        if listed && (is_dir || !weight) {
            es.push(ExtraItem { name: name.to_owned(), is_dir });
            assert(extra_views(es@) =~= extras_of(next));
        } else {
            assert(extra_views(es@) =~= extras_of(next));
        }
        i = i + 1;
    }
    assert(g.subrange(0, items@.len() as int) =~= g);
    (ws, es)
}

/// An installed model as the registry records it.
pub struct ModelRegistryEntry {
    pub id: String,
    pub category: String,
    pub format_type: String,
    pub huggingface_repo: String,
    pub local_dir: String,
    pub files: Vec<RegistryModelFile>,
    pub extra_files: Vec<ExtraItem>,
    pub supported_tasks: Vec<String>,
    pub requires_gpu: bool,
    pub metadata: RegistryModelMetadata,
}

pub open spec fn file_views(fs: Seq<RegistryModelFile>) -> Seq<(Seq<char>, u64, bool)> {
    fs.map_values(|f: RegistryModelFile| (f.name@, f.size_bytes, f.is_primary))
}

/// The registry's file list: every weight file, the first one primary (and
/// every file of the same name).
pub open spec fn registry_files_spec(ws: Seq<(Seq<char>, u64)>) -> Seq<(Seq<char>, u64, bool)> {
    Seq::new(ws.len(), |j: int| (ws[j].0, ws[j].1, ws[j].0 == ws[0].0))
}

/// Weight format of the primary file.
pub open spec fn format_of(primary: Seq<char>) -> Seq<char> {
    if ends_with(primary, ".gguf"@) { "gguf"@ } else { "onnx"@ }
}

fn registry_files(ws: &Vec<WeightFile>) -> (r: Vec<RegistryModelFile>)
    requires
        ws@.len() > 0,
    ensures
        file_views(r@) == registry_files_spec(weight_views(ws@)),
{
    let ghost g = weight_views(ws@);
    let primary = chars_of(ws[0].name.as_str());
    let mut out: Vec<RegistryModelFile> = Vec::new();
    let mut i: usize = 0;
    while i < ws.len()
        invariant
            g == weight_views(ws@),
            ws@.len() > 0,
            primary@ == g[0].0,
            i <= ws@.len(),
            out@.len() == i,
            forall|j: int| 0 <= j < i ==> file_views(out@)[j] == registry_files_spec(g)[j],
        decreases ws.len() - i,
    {
        let c = chars_of(ws[i].name.as_str());
        let is_primary = crate::text::chars_eq(&c, &primary);
        out.push(RegistryModelFile { name: ws[i].name.as_str().to_owned(), size_bytes: ws[i].size, is_primary });
        proof {
            assert forall|j: int| 0 <= j < i + 1 implies file_views(out@)[j] == registry_files_spec(g)[j] by {
                if j < i {
                    assert(file_views(out@)[j] == file_views(out@.drop_last())[j]);
                }
            }
        }
        i = i + 1;
    }
    assert(file_views(out@) =~= registry_files_spec(g));
    out
}

/// `e` is the registry entry `build_registry_entry` makes for a scanned folder
/// that holds weight files, with `previous_repo` the repository recorded before.
pub open spec fn scanned_entry(
    e: ModelRegistryEntry,
    id: Seq<char>,
    local_dir: Seq<char>,
    weights: Seq<WeightFile>,
    extras: Seq<ExtraItem>,
    slot: SlotType,
    has_vision: bool,
    metadata: RegistryModelMetadata,
    requires_gpu: bool,
    previous_repo: Seq<char>,
) -> bool {
    &&& e.id@ == id
    &&& e.category@ == slot_name(slot)
    &&& e.format_type@ == format_of(weights[0].name@)
    &&& e.huggingface_repo@ == previous_repo
    &&& e.local_dir@ == local_dir
    &&& file_views(e.files@) == registry_files_spec(weight_views(weights))
    &&& e.extra_files@ == extras
    &&& string_views(e.supported_tasks@) == slot_tasks(slot, has_vision)
    &&& e.requires_gpu == requires_gpu
    &&& e.metadata == metadata
}

/// The registry entry for a scanned model folder: `None` when it holds no weight
/// file; otherwise its first weight file is primary and decides the format, the
/// slot decides category and tasks, and the repository recorded before is kept.
pub fn build_registry_entry(
    id: &str,
    local_dir: &str,
    weights: &Vec<WeightFile>,
    extras: Vec<ExtraItem>,
    slot: SlotType,
    caps: &ModelCapabilities,
    metadata: RegistryModelMetadata,
    requires_gpu: bool,
    previous_repo: Option<String>,
) -> (r: Option<ModelRegistryEntry>)
    ensures
        weights@.len() == 0 <==> r is None,
        r matches Some(e) ==> {
            &&& e.id@ == id@
            &&& e.category@ == slot_name(slot)
            &&& e.format_type@ == format_of(weights@[0].name@)
            &&& e.huggingface_repo@ == (match previous_repo {
                Some(p) => p@,
                None => Seq::<char>::empty(),
            })
            &&& e.local_dir@ == local_dir@
            &&& file_views(e.files@) == registry_files_spec(weight_views(weights@))
            &&& e.extra_files@ == extras@
            &&& string_views(e.supported_tasks@) == slot_tasks(slot, caps.has_vision)
            &&& e.requires_gpu == requires_gpu
            &&& e.metadata == metadata
        },
{
    if weights.len() == 0 {
        return None;
    }
    let primary = chars_of(weights[0].name.as_str());
    let format_type = if has_suffix(&primary, ".gguf") { "gguf".to_owned() } else { "onnx".to_owned() };
    let files = registry_files(weights);
    let huggingface_repo = match previous_repo {
        Some(p) => p,
        None => String::new(),
    };
    Some(ModelRegistryEntry {
        id: id.to_owned(),
        category: slot.as_str().to_owned(),
        format_type,
        huggingface_repo,
        local_dir: local_dir.to_owned(),
        files,
        extra_files: extras,
        supported_tasks: slot.supported_tasks(caps),
        requires_gpu,
        metadata,
    })
}

// ───────────────────────── pulled bundles ─────────────────────────

/// The primary pick over the first `n` weight files: the first file with the
/// lowest priority score in `category`, else `default` (the manifest's file).
pub open spec fn primary_pick(category: Seq<char>, ws: Seq<WeightFile>, n: nat, default: Seq<char>) -> (int, Seq<char>)
    decreases n,
{
    if n == 0 || n > ws.len() {
        (usize::MAX as int, default)
    } else {
        let prev = primary_pick(category, ws, (n - 1) as nat, default);
        let s = crate::fetch::asset_bundler::score_model_spec(category, ws[n - 1].name@) as int;
        if s < prev.0 {
            (s, ws[n - 1].name@)
        } else {
            prev
        }
    }
}

/// The file list of a pulled bundle: every weight file, primary when its name is
/// the picked primary name.
pub open spec fn pulled_files_spec(ws: Seq<(Seq<char>, u64)>, primary: Seq<char>) -> Seq<(Seq<char>, u64, bool)> {
    Seq::new(ws.len(), |j: int| (ws[j].0, ws[j].1, ws[j].0 == primary))
}

/// Does the manifest's parameter label override the probed one (not blank, not
/// `Unknown`)?
pub open spec fn manifest_parameters_apply(p: Seq<char>) -> bool {
    crate::text::trim(p).len() > 0 && p != "Unknown"@
}

/// The TTS family of a pulled model: the discovered one, else for the `audio`
/// category the family its id and file listing name.
pub open spec fn pulled_tts_family(
    discovered: Option<Seq<char>>,
    category: Seq<char>,
    manifest_id: Seq<char>,
    extras_text: Seq<char>,
) -> Option<Seq<char>> {
    match discovered {
        Some(f) => Some(f),
        None => if category == "audio"@ {
            Some(crate::fetch::tts_resolver::tts_family_spec(manifest_id, extras_text))
        } else {
            None
        },
    }
}

/// The registry entry of a pulled model bundle, after its download: the folder-safe
/// manifest id, the slot's category and tasks, the format of the manifest's file,
/// the primary file chosen by priority score, the manifest's parameter label over
/// the probed one, the TTS family fallback and the backend of the format.
pub fn pulled_registry_entry(
    manifest_id: &str,
    huggingface_filename: &str,
    huggingface_repo: &str,
    manifest_parameters: &str,
    local_dir: &str,
    weights: &Vec<WeightFile>,
    extras: Vec<ExtraItem>,
    extras_text: &str,
    slot: SlotType,
    caps: &ModelCapabilities,
    metadata: RegistryModelMetadata,
    requires_gpu: bool,
) -> (r: ModelRegistryEntry)
    ensures
        r.id@ == crate::text::replace_char(manifest_id@, ':', '-'),
        r.category@ == slot_name(slot),
        r.format_type@ == format_of(huggingface_filename@),
        r.huggingface_repo@ == huggingface_repo@,
        r.local_dir@ == local_dir@,
        file_views(r.files@) == pulled_files_spec(
            weight_views(weights@),
            primary_pick(slot_name(slot), weights@, weights@.len(), huggingface_filename@).1,
        ),
        r.extra_files@ == extras@,
        string_views(r.supported_tasks@) == slot_tasks(slot, caps.has_vision),
        r.requires_gpu == requires_gpu,
        r.metadata.parameters@ == (if manifest_parameters_apply(manifest_parameters@) {
            manifest_parameters@
        } else {
            metadata.parameters@
        }),
        crate::discovery::probe::opt_str(r.metadata.tts_family) == pulled_tts_family(
            crate::discovery::probe::opt_str(caps.tts_family),
            slot_name(slot),
            manifest_id@,
            extras_text@,
        ),
        crate::discovery::probe::opt_str(r.metadata.backend_type) == Some(
            if format_of(huggingface_filename@) == "gguf"@ { "ggml"@ } else { "onnx"@ },
        ),
        r.metadata.architecture == metadata.architecture,
        r.metadata.context_window == metadata.context_window,
        r.metadata.quantization == metadata.quantization,
        r.metadata.bit_depth == metadata.bit_depth,
        r.metadata.stt_family == metadata.stt_family,
        r.metadata.think_start_tag == metadata.think_start_tag,
        r.metadata.think_end_tag == metadata.think_end_tag,
        r.metadata.chat_template == metadata.chat_template,
{
    let category = slot.as_str();
    let fname = chars_of(huggingface_filename);
    let gguf = has_suffix(&fname, ".gguf");
    let format_type = if gguf { "gguf".to_owned() } else { "onnx".to_owned() };
    // primary graph: the first weight file with the lowest priority score
    let mut best: usize = usize::MAX;
    let mut primary = huggingface_filename.to_owned();
    let mut i: usize = 0;
    while i < weights.len()
        invariant
            i <= weights@.len(),
            category@ == slot_name(slot),
            (best as int, primary@) == primary_pick(category@, weights@, i as nat, huggingface_filename@),
        decreases weights.len() - i,
    {
        let s = crate::fetch::asset_bundler::AssetBundler::score_model_file_priority(category, weights[i].name.as_str());
        if s < best {
            best = s;
            primary = weights[i].name.clone();
        }
        i = i + 1;
    }
    let pc = chars_of(primary.as_str());
    let mut files: Vec<RegistryModelFile> = Vec::new();
    let mut j: usize = 0;
    while j < weights.len()
        invariant
            j <= weights@.len(),
            pc@ == primary@,
            files@.len() == j,
            forall|k: int| 0 <= k < j ==> (#[trigger] files@[k]).name@ == weights@[k].name@
                && files@[k].size_bytes == weights@[k].size && files@[k].is_primary == (weights@[k].name@ == primary@),
        decreases weights.len() - j,
    {
        let n = chars_of(weights[j].name.as_str());
        let is_primary = crate::text::chars_eq(&n, &pc);
        files.push(RegistryModelFile { name: weights[j].name.clone(), size_bytes: weights[j].size, is_primary });
        j = j + 1;
    }
    proof {
        assert(file_views(files@) =~= pulled_files_spec(weight_views(weights@), primary@));
    }
    let mp = chars_of(manifest_parameters);
    let use_manifest = crate::text::trim_chars(&mp).len() > 0 && !eq_str(&mp, "Unknown");
    let RegistryModelMetadata {
        architecture,
        parameters,
        context_window,
        quantization,
        bit_depth,
        tts_family: _,
        stt_family,
        backend_type: _,
        think_start_tag,
        think_end_tag,
        chat_template,
    } = metadata;
    let parameters = if use_manifest { manifest_parameters.to_owned() } else { parameters };
    let cat = chars_of(category);
    let tts_family = match &caps.tts_family {
        Some(f) => Some(f.clone()),
        None => if eq_str(&cat, "audio") {
            Some(crate::fetch::tts_resolver::TtsAssetResolver::detect_tts_family(manifest_id, extras_text).to_owned())
        } else {
            None
        },
    };
    let backend_type = Some(if gguf { "ggml".to_owned() } else { "onnx".to_owned() });
    proof {
        reveal_strlit("gguf");
        reveal_strlit("onnx");
        assert("gguf"@[0] != "onnx"@[0]);
    }
    ModelRegistryEntry {
        id: crate::fetch::manifest_plan::safe_model_id(manifest_id),
        category: category.to_owned(),
        format_type,
        huggingface_repo: huggingface_repo.to_owned(),
        local_dir: local_dir.to_owned(),
        files,
        extra_files: extras,
        supported_tasks: slot.supported_tasks(caps),
        requires_gpu,
        metadata: RegistryModelMetadata {
            architecture,
            parameters,
            context_window,
            quantization,
            bit_depth,
            tts_family,
            stt_family,
            backend_type,
            think_start_tag,
            think_end_tag,
            chat_template,
        },
    }
}

/// A recorded model is dropped from the registry when its folder is gone, or when
/// it has a primary file and that file is gone.  `primary_exists` is `None` when
/// the entry lists no primary file.
pub fn should_prune(dir_exists: bool, primary_exists: Option<bool>) -> (r: bool)
    ensures
        r == (!dir_exists || primary_exists == Some(false)),
{
    !dir_exists || primary_exists == Some(false)
}

/// Does the entry belong to the slot (its category is the slot's name)?
pub fn entry_in_slot(category: &str, slot: SlotType) -> (r: bool)
    ensures
        r == (category@ == slot_name(slot)),
{
    let c = chars_of(category);
    let s = chars_of(slot.as_str());
    crate::text::chars_eq(&c, &s)
}

// ───────────────────────── audio weight order ─────────────────────────

/// Ordering class of an audio weight file by its lower-cased name: synthesis
/// graphs first, speaker and embedding helpers last.
pub open spec fn weight_tier(name: Seq<char>) -> int {
    let n = crate::text::lowercase(name);
    if crate::text::contains_any(n, TTS_MAIN_MARKERS@) {
        0
    } else if crate::text::contains_any(n, TTS_HELPER_MARKERS@) {
        2
    } else {
        1
    }
}

/// Audio weight files are ordered by class, then by name.
pub open spec fn weight_leq() -> spec_fn((Seq<char>, u64), (Seq<char>, u64)) -> bool {
    |a: (Seq<char>, u64), b: (Seq<char>, u64)| weight_tier(a.0) < weight_tier(b.0) || (weight_tier(a.0) == weight_tier(b.0) && lex_le(a.0, b.0))
}

fn tier_of_name(name: &str) -> (r: u8)
    ensures
        r as int == weight_tier(name@),
{
    let n = crate::text::lower_chars(name);
    if crate::text::has_any_sub(&n, &TTS_MAIN_MARKERS) {
        0
    } else if crate::text::has_any_sub(&n, &TTS_HELPER_MARKERS) {
        2
    } else {
        1
    }
}

fn weight_before(a: &WeightFile, b: &WeightFile) -> (r: bool)
    ensures
        r == weight_leq()((a.name@, a.size), (b.name@, b.size)),
{
    let ta = tier_of_name(a.name.as_str());
    let tb = tier_of_name(b.name.as_str());
    ta < tb || (ta == tb && lex_le_chars(&chars_of(a.name.as_str()), &chars_of(b.name.as_str())))
}

proof fn lemma_weight_leq_total(a: (Seq<char>, u64), b: (Seq<char>, u64))
    ensures
        weight_leq()(a, b) || weight_leq()(b, a),
{
    crate::order::lemma_lex_total_ordering();
    assert(vstd::relations::total_ordering(crate::order::lex_leq()));
    assert(crate::order::lex_leq()(a.0, b.0) || crate::order::lex_leq()(b.0, a.0));
}

proof fn lemma_weight_leq_transitive(a: (Seq<char>, u64), b: (Seq<char>, u64), c: (Seq<char>, u64))
    requires
        weight_leq()(a, b),
        weight_leq()(b, c),
    ensures
        weight_leq()(a, c),
{
    crate::order::lemma_lex_total_ordering();
    assert(vstd::relations::total_ordering(crate::order::lex_leq()));
    if weight_tier(a.0) == weight_tier(b.0) && weight_tier(b.0) == weight_tier(c.0) {
        assert(crate::order::lex_leq()(a.0, b.0) && crate::order::lex_leq()(b.0, c.0));
        assert(crate::order::lex_leq()(a.0, c.0));
    }
}

/// The weight files of an audio model folder in the order the scan ranks them:
/// by class (synthesis graphs, others, speaker and embedding helpers), then by
/// name.  The result is that order and holds the same files.
pub fn order_audio_weights(weights: Vec<WeightFile>) -> (r: Vec<WeightFile>)
    ensures
        sorted_by(weight_views(r@), weight_leq()),
        weight_views(r@).to_multiset() == weight_views(weights@).to_multiset(),
{
    let ghost input = weight_views(weights@);
    let mut out: Vec<WeightFile> = Vec::new();
    let mut i: usize = 0;
    assert(weight_views(out@) =~= input.take(0));
    while i < weights.len()
        invariant
            i <= weights@.len(),
            input == weight_views(weights@),
            sorted_by(weight_views(out@), weight_leq()),
            weight_views(out@).to_multiset() == input.take(i as int).to_multiset(),
        decreases weights.len() - i,
    {
        let ghost x = input[i as int];
        let mut p: usize = 0;
        loop
            invariant
                p <= out@.len(),
                i < weights@.len(),
                x == (weights@[i as int].name@, weights@[i as int].size),
                forall|k: int| 0 <= k < p ==> weight_leq()(#[trigger] weight_views(out@)[k], x),
            ensures
                p <= out@.len(),
                forall|k: int| 0 <= k < p ==> weight_leq()(#[trigger] weight_views(out@)[k], x),
                p < out@.len() ==> !weight_leq()(weight_views(out@)[p as int], x),
            decreases out.len() - p,
        {
            if p >= out.len() {
                break;
            }
            if !weight_before(&out[p], &weights[i]) {
                break;
            }
            p = p + 1;
        }
        let ghost before = weight_views(out@);
        let item = WeightFile { name: weights[i].name.as_str().to_owned(), size: weights[i].size };
        out.insert(p, item);
        proof {
            let after = weight_views(out@);
            assert(after =~= before.insert(p as int, x));
            vstd::seq_lib::to_multiset_insert(before, p as int, x);
            assert(input.take(i + 1) =~= input.take(i as int).push(x));
            vstd::seq_lib::to_multiset_build(input.take(i as int), x);
            if p < before.len() {
                lemma_weight_leq_total(before[p as int], x);
            }
            assert forall|a: int, b: int| 0 <= a < b < after.len() implies #[trigger] weight_leq()(after[a], after[b]) by {
                if b < p {
                    assert(after[a] == before[a] && after[b] == before[b]);
                } else if b == p {
                    assert(after[a] == before[a]);
                } else if a < p {
                    assert(after[a] == before[a] && after[b] == before[b - 1]);
                } else if a == p {
                    assert(after[a] == x);
                    assert(after[b] == before[b - 1]);
                    assert(weight_leq()(x, before[p as int]));
                    if p < b - 1 {
                        assert(weight_leq()(before[p as int], before[b - 1]));
                        lemma_weight_leq_transitive(x, before[p as int], before[b - 1]);
                    }
                } else {
                    assert(after[a] == before[a - 1] && after[b] == before[b - 1]);
                }
            }
        }
        i = i + 1;
    }
    proof {
        assert(input.take(input.len() as int) =~= input);
    }
    out
}

} // verus!
