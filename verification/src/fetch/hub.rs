//! Grouping a Hugging Face repository's file tree into downloadable model variants:
//! single GGUF files, multi-part GGUF shards, and ONNX graphs with their external
//! weight files, each bundled with the helper GGUFs and metadata it needs.
use vstd::prelude::*;
use crate::text::{
    chars_of, concat_str, contains, contains_any, ends_with, ends_with_any, file_name_of,
    has_any_sub, has_any_suffix, has_prefix, has_suffix, lower_chars, lowercase, or_else,
    parent_or_empty, path_file_name, path_parent, starts_with, string_of, string_views, views,
    opt_view, chars_eq, replace_char, replace_char_chars, slice_copy, split_chars, split_on,
};
use crate::taxonomy::quantization::{
    quant_tag_spec, shard_base_spec, strip_onnx_spec, UniversalQuantization,
};
use crate::fetch::asset_bundler::{
    best_mmproj_from, best_mtp_upto, compatible_metadata_spec, helper_named, is_helper_spec,
    is_mtp_spec, kept_metadata, AssetBundler,
};
use crate::fetch::tts_resolver::{is_tts_subcomponent_spec, parent_dir, TtsAssetResolver};
use crate::taxonomy::quantization::ONNX_COMPANION_SUFFIXES;
use vstd::wrapping::u64_specs::wrapping_add;
use crate::order::{lex_leq, sort_strings};

verus! {

/// One entry of a repository's file tree.
pub struct HfTreeItem {
    pub path: String,
    pub size: Option<u64>,
    /// `file` or `directory`, when the hub says.
    pub entry_type: Option<String>,
}

/// A downloadable model variant: its primary file and every file bundled with it.
pub struct HfVariant {
    pub variant_id: String,
    pub format_type: String,
    pub quant_tag: String,
    pub primary_file: String,
    pub all_files: Vec<String>,
    pub filename: String,
    /// Total bytes of the variant's weight files.
    pub size_bytes: u64,
}

/// Mathematical view of a variant.
pub struct VariantView {
    pub variant_id: Seq<char>,
    pub format_type: Seq<char>,
    pub quant_tag: Seq<char>,
    pub primary_file: Seq<char>,
    pub all_files: Seq<Seq<char>>,
    pub filename: Seq<char>,
    pub size_bytes: u64,
}

impl View for HfVariant {
    type V = VariantView;

    open spec fn view(&self) -> VariantView {
        VariantView {
            variant_id: self.variant_id@,
            format_type: self.format_type@,
            quant_tag: self.quant_tag@,
            primary_file: self.primary_file@,
            all_files: string_views(self.all_files@),
            filename: self.filename@,
            size_bytes: self.size_bytes,
        }
    }
}

pub const LISTING_META_SUFFIXES: [&'static str; 8] = [
    ".json", ".txt", ".yaml", ".yml", "vocab.json", "merges.txt", "cluaiz-engine.ready",
    "speaker_embeddings.bin",
];

pub const LISTING_META_MARKERS: [&'static str; 4] = ["voices/", "voice_styles/", "vocoder/", "codec/"];

/// Paths of the tree's items.
pub open spec fn item_paths(items: Seq<HfTreeItem>) -> Seq<Seq<char>> {
    Seq::new(items.len(), |i: int| items[i].path@)
}

/// Size of an item (0 when unknown).
pub open spec fn item_size(it: HfTreeItem) -> u64 {
    match it.size {
        Some(s) => s,
        None => 0,
    }
}

/// A metadata, configuration or voice file of the listing.
pub open spec fn is_listing_meta(p: Seq<char>) -> bool {
    let l = lowercase(p);
    ends_with_any(l, LISTING_META_SUFFIXES@) || contains_any(l, LISTING_META_MARKERS@)
}

/// Paths of the first `n` items that satisfy `keep`, in order.
pub open spec fn paths_where(paths: Seq<Seq<char>>, keep: spec_fn(Seq<char>) -> bool, n: int) -> Seq<Seq<char>>
    decreases n,
{
    if n <= 0 {
        Seq::empty()
    } else {
        let rest = paths_where(paths, keep, n - 1);
        if keep(paths[n - 1]) { rest.push(paths[n - 1]) } else { rest }
    }
}

/// Metadata paths of the listing.
pub open spec fn listing_metadata(paths: Seq<Seq<char>>) -> Seq<Seq<char>> {
    paths_where(paths, |p: Seq<char>| is_listing_meta(p), paths.len() as int)
}

/// The role of a path among GGUF files.
pub enum GgufRole {
    Mmproj,
    Mtp,
    Shard(Seq<char>),
    Standalone,
    Other,
}

pub open spec fn gguf_role(p: Seq<char>) -> GgufRole {
    let l = lowercase(p);
    if !ends_with(l, ".gguf"@) {
        GgufRole::Other
    } else if helper_named(l, "mmproj"@) {
        GgufRole::Mmproj
    } else if is_mtp_spec(l) {
        GgufRole::Mtp
    } else if is_helper_spec(l) {
        GgufRole::Other
    } else {
        match shard_base_spec(p) {
            Some(b) => GgufRole::Shard(b),
            None => GgufRole::Standalone,
        }
    }
}

pub open spec fn listing_mmprojs(paths: Seq<Seq<char>>) -> Seq<Seq<char>> {
    paths_where(paths, |p: Seq<char>| gguf_role(p) is Mmproj, paths.len() as int)
}

pub open spec fn listing_mtps(paths: Seq<Seq<char>>) -> Seq<Seq<char>> {
    paths_where(paths, |p: Seq<char>| gguf_role(p) is Mtp, paths.len() as int)
}

/// The file name of a path (the path itself when it has none).
pub open spec fn file_name_or(p: Seq<char>) -> Seq<char> {
    or_else(path_file_name(p), p)
}

/// Helper files and metadata bundled with a primary GGUF file: the preferred mmproj,
/// the MTP file closest in quantization, then the compatible metadata.
pub open spec fn gguf_companions(paths: Seq<Seq<char>>, primary: Seq<char>, quant: Seq<char>) -> Seq<Seq<char>> {
    let mm = listing_mmprojs(paths);
    let mtp = listing_mtps(paths);
    let a = if mm.len() > 0 { seq![mm[best_mmproj_from(mm, 0)]] } else { Seq::empty() };
    let b = if mtp.len() > 0 { seq![mtp[best_mtp_upto(mtp, quant, mtp.len() as int)]] } else { Seq::empty() };
    a + b + paths_where(
        listing_metadata(paths),
        |m: Seq<char>| compatible_metadata_spec(m, primary),
        listing_metadata(paths).len() as int,
    )
}

/// The variant of a standalone GGUF file.
pub open spec fn standalone_variant(paths: Seq<Seq<char>>, p: Seq<char>, size: u64) -> VariantView {
    let fname = file_name_or(p);
    let quant = quant_tag_spec(fname);
    let files = seq![p] + gguf_companions(paths, p, quant);
    VariantView {
        variant_id: fname,
        format_type: "gguf"@,
        quant_tag: quant,
        primary_file: p,
        all_files: kept_metadata(files, files),
        filename: fname,
        size_bytes: size,
    }
}

/// Variants of the standalone GGUF files among the first `n` items, in order.
pub open spec fn standalone_variants(items: Seq<HfTreeItem>, n: int) -> Seq<VariantView>
    decreases n,
{
    if n <= 0 {
        Seq::empty()
    } else {
        let rest = standalone_variants(items, n - 1);
        if gguf_role(items[n - 1].path@) is Standalone {
            rest.push(standalone_variant(item_paths(items), items[n - 1].path@, item_size(items[n - 1])))
        } else {
            rest
        }
    }
}


/// Role of a path among GGUF files, as computed.
pub enum GgufKind {
    Mmproj,
    Mtp,
    Shard(String),
    Standalone,
    Other,
}

fn gguf_kind(p: &str) -> (r: GgufKind)
    ensures
        match r {
            GgufKind::Mmproj => gguf_role(p@) is Mmproj,
            GgufKind::Mtp => gguf_role(p@) is Mtp,
            GgufKind::Shard(b) => gguf_role(p@) == GgufRole::Shard(b@),
            GgufKind::Standalone => gguf_role(p@) is Standalone,
            GgufKind::Other => gguf_role(p@) is Other,
        },
{
    let l = lower_chars(p);
    let ls = string_of(&l);
    if !has_suffix(&l, ".gguf") {
        GgufKind::Other
    } else if AssetBundler::is_mmproj_gguf(ls.as_str()) {
        GgufKind::Mmproj
    } else if AssetBundler::is_mtp_gguf(ls.as_str()) {
        GgufKind::Mtp
    } else if AssetBundler::is_helper_gguf(ls.as_str()) {
        GgufKind::Other
    } else {
        match UniversalQuantization::extract_shard_base(p) {
            Some(b) => GgufKind::Shard(b),
            None => GgufKind::Standalone,
        }
    }
}

fn is_listing_meta_of(p: &str) -> (r: bool)
    ensures
        r == is_listing_meta(p@),
{
    let l = lower_chars(p);
    has_any_suffix(&l, &LISTING_META_SUFFIXES) || has_any_sub(&l, &LISTING_META_MARKERS)
}

fn push_path(v: &mut Vec<String>, p: &String)
    ensures
        string_views(final(v)@) == string_views(old(v)@).push(p@),
{
    v.push(p.clone());
    assert(string_views(v@) =~= string_views(old(v)@).push(p@));
}

/// Metadata paths of the listing.
fn metadata_paths(items: &Vec<HfTreeItem>) -> (r: Vec<String>)
    ensures
        string_views(r@) == listing_metadata(item_paths(items@)),
{
    let ghost ps = item_paths(items@);
    let mut r: Vec<String> = Vec::new();
    let mut i: usize = 0;
    assert(string_views(r@) =~= Seq::<Seq<char>>::empty());
    while i < items.len()
        invariant
            i <= items@.len(),
            ps == item_paths(items@),
            string_views(r@) == paths_where(ps, |p: Seq<char>| is_listing_meta(p), i as int),
        decreases items.len() - i,
    {
        if is_listing_meta_of(items[i].path.as_str()) {
            push_path(&mut r, &items[i].path);
        }
        i = i + 1;
    }
    r
}

/// Paths of the mmproj (`mmproj == true`) or MTP helper GGUFs of the listing.
fn helper_paths<'a>(items: &'a Vec<HfTreeItem>, mmproj: bool) -> (r: Vec<&'a str>)
    ensures
        views(r@) == if mmproj { listing_mmprojs(item_paths(items@)) } else { listing_mtps(item_paths(items@)) },
{
    let ghost ps = item_paths(items@);
    let mut r: Vec<&'a str> = Vec::new();
    let mut i: usize = 0;
    assert(views(r@) =~= Seq::<Seq<char>>::empty());
    while i < items.len()
        invariant
            i <= items@.len(),
            ps == item_paths(items@),
            views(r@) == if mmproj {
                paths_where(ps, |p: Seq<char>| gguf_role(p) is Mmproj, i as int)
            } else {
                paths_where(ps, |p: Seq<char>| gguf_role(p) is Mtp, i as int)
            },
        decreases items.len() - i,
    {
        let k = gguf_kind(items[i].path.as_str());
        let hit = match k {
            GgufKind::Mmproj => mmproj,
            GgufKind::Mtp => !mmproj,
            _ => false,
        };
        if hit {
            let ghost before = r@;
            r.push(items[i].path.as_str());
            assert(views(r@) =~= views(before).push(items@[i as int].path@));
        }
        i = i + 1;
    }
    r
}

/// The metadata compatible with `primary`, in order.
fn compatible_metadata(metas: &Vec<String>, primary: &str) -> (r: Vec<String>)
    ensures
        string_views(r@) == paths_where(
            string_views(metas@),
            |m: Seq<char>| compatible_metadata_spec(m, primary@),
            metas@.len() as int,
        ),
{
    let ghost ms = string_views(metas@);
    let mut r: Vec<String> = Vec::new();
    let mut i: usize = 0;
    assert(string_views(r@) =~= Seq::<Seq<char>>::empty());
    while i < metas.len()
        invariant
            i <= metas@.len(),
            ms == string_views(metas@),
            string_views(r@) == paths_where(ms, |m: Seq<char>| compatible_metadata_spec(m, primary@), i as int),
        decreases metas.len() - i,
    {
        assert(ms[i as int] == metas@[i as int]@);
        if AssetBundler::is_compatible_subfolder_metadata(metas[i].as_str(), primary) {
            push_path(&mut r, &metas[i]);
        }
        i = i + 1;
    }
    r
}

/// `a` followed by `b`.
fn append_paths(a: &mut Vec<String>, b: &Vec<String>)
    ensures
        string_views(final(a)@) == string_views(old(a)@) + string_views(b@),
{
    let ghost start = string_views(a@);
    let mut i: usize = 0;
    assert(start =~= start + string_views(b@).take(0));
    while i < b.len()
        invariant
            i <= b@.len(),
            string_views(a@) == start + string_views(b@).take(i as int),
        decreases b.len() - i,
    {
        push_path(a, &b[i]);
        i = i + 1;
        assert(string_views(a@) =~= start + string_views(b@).take(i as int));
    }
    assert(string_views(b@).take(b@.len() as int) =~= string_views(b@));
}

/// The file name of a path (the path itself when it has none).
fn file_name_or_path(p: &str) -> (r: String)
    ensures
        r@ == file_name_or(p@),
{
    match file_name_of(p) {
        Some(n) => n,
        None => p.to_owned(),
    }
}

/// Helper files and metadata bundled with a primary GGUF file.
fn gguf_companion_files(
    mm: &Vec<&str>,
    mtp: &Vec<&str>,
    metas: &Vec<String>,
    primary: &str,
    quant: &str,
    ghost_paths: Ghost<Seq<Seq<char>>>,
) -> (r: Vec<String>)
    requires
        views(mm@) == listing_mmprojs(ghost_paths@),
        views(mtp@) == listing_mtps(ghost_paths@),
        string_views(metas@) == listing_metadata(ghost_paths@),
    ensures
        string_views(r@) == gguf_companions(ghost_paths@, primary@, quant@),
{
    let mut r: Vec<String> = Vec::new();
    assert(string_views(r@) =~= Seq::<Seq<char>>::empty());
    if let Some(best) = AssetBundler::select_best_mmproj(mm.as_slice()) {
        let ghost before = string_views(r@);
        r.push(best.to_owned());
        proof {
            let i = best_mmproj_from(views(mm@), 0);
            assert(views(mm@)[i] == mm@[i]@);
            assert(string_views(r@) =~= before.push(best@));
        }
    }
    if let Some(best) = AssetBundler::select_best_mtp(mtp.as_slice(), quant) {
        let ghost before = string_views(r@);
        r.push(best.to_owned());
        proof {
            assert(views(mtp@).len() == mtp@.len());
            let i = best_mtp_upto(views(mtp@), quant@, mtp@.len() as int);
            crate::fetch::asset_bundler::lemma_best_mtp_range(views(mtp@), quant@, mtp@.len() as int);
            assert(views(mtp@)[i] == mtp@[i]@);
            assert(string_views(r@) =~= before.push(best@));
        }
    }
    let ghost head = string_views(r@);
    let compat = compatible_metadata(metas, primary);
    append_paths(&mut r, &compat);
    proof {
        let mm_s = listing_mmprojs(ghost_paths@);
        let mtp_s = listing_mtps(ghost_paths@);
        let a = if mm_s.len() > 0 { seq![mm_s[best_mmproj_from(mm_s, 0)]] } else { Seq::<Seq<char>>::empty() };
        let b = if mtp_s.len() > 0 {
            seq![mtp_s[best_mtp_upto(mtp_s, quant@, mtp_s.len() as int)]]
        } else {
            Seq::<Seq<char>>::empty()
        };
        assert(head =~= a + b);
    }
    r
}


// ───────────────────────── shards ─────────────────────────

/// Shard bases of the first `n` paths, each once, in first-seen order.
pub open spec fn shard_bases(paths: Seq<Seq<char>>, n: int) -> Seq<Seq<char>>
    decreases n,
{
    if n <= 0 {
        Seq::empty()
    } else {
        let rest = shard_bases(paths, n - 1);
        match gguf_role(paths[n - 1]) {
            GgufRole::Shard(b) => if rest.contains(b) { rest } else { rest.push(b) },
            _ => rest,
        }
    }
}

/// Paths of the first `n` items whose shard base is `b`, in order.
pub open spec fn shard_members(paths: Seq<Seq<char>>, b: Seq<char>, n: int) -> Seq<Seq<char>> {
    paths_where(paths, |p: Seq<char>| gguf_role(p) == GgufRole::Shard(b), n)
}

/// Total size (modulo 2^64) of the first `n` items that satisfy `keep`.
pub open spec fn size_where(items: Seq<HfTreeItem>, keep: spec_fn(Seq<char>) -> bool, n: int) -> u64
    decreases n,
{
    if n <= 0 {
        0
    } else {
        let rest = size_where(items, keep, n - 1);
        if keep(items[n - 1].path@) { wrapping_add(rest, item_size(items[n - 1])) } else { rest }
    }
}

/// The variant of the shard group with base `b`: its shards in path order, the first
/// one primary.
pub open spec fn shard_variant(items: Seq<HfTreeItem>, b: Seq<char>) -> VariantView {
    let paths = item_paths(items);
    let sorted = shard_members(paths, b, paths.len() as int).sort_by(lex_leq());
    let first = sorted[0];
    let fname = file_name_or(first);
    let quant = quant_tag_spec(fname);
    let files = sorted + gguf_companions(paths, first, quant);
    VariantView {
        variant_id: fname,
        format_type: "gguf"@,
        quant_tag: quant,
        primary_file: first,
        all_files: kept_metadata(files, files),
        filename: fname,
        size_bytes: size_where(items, |p: Seq<char>| gguf_role(p) == GgufRole::Shard(b), items.len() as int),
    }
}

// ───────────────────────── ONNX ─────────────────────────

/// An ONNX graph that anchors a variant (not a sub-stage of a pipeline).
pub open spec fn is_onnx_anchor(p: Seq<char>) -> bool {
    ends_with(lowercase(p), ".onnx"@) && !is_tts_subcomponent_spec(p)
}

/// An external-data file of the graph at `p`: same folder (or below), same stem.
pub open spec fn is_companion_of(d: Seq<char>, p: Seq<char>) -> bool {
    ends_with_any(lowercase(d), ONNX_COMPANION_SUFFIXES@) && (parent_dir(d) == parent_dir(p)
        || starts_with(d, parent_dir(p))) && strip_onnx_spec(d) == strip_onnx_spec(p)
}

/// The variant of the ONNX graph `it`: the graph, its external-data files, and the
/// compatible metadata.
pub open spec fn onnx_variant(items: Seq<HfTreeItem>, it: HfTreeItem) -> VariantView {
    let paths = item_paths(items);
    let p = it.path@;
    let fname = file_name_or(p);
    let quant = quant_tag_spec(fname);
    let data = paths_where(paths, |d: Seq<char>| is_companion_of(d, p), paths.len() as int);
    let metas = paths_where(
        listing_metadata(paths),
        |m: Seq<char>| compatible_metadata_spec(m, p),
        listing_metadata(paths).len() as int,
    );
    let files = seq![p] + data + metas;
    VariantView {
        variant_id: fname,
        format_type: "onnx"@,
        quant_tag: quant,
        primary_file: p,
        all_files: kept_metadata(files, files),
        filename: fname,
        size_bytes: wrapping_add(
            item_size(it),
            size_where(items, |d: Seq<char>| is_companion_of(d, p), items.len() as int),
        ),
    }
}

/// Variants of the ONNX graphs among the first `n` items, in order.
pub open spec fn onnx_variants(items: Seq<HfTreeItem>, n: int) -> Seq<VariantView>
    decreases n,
{
    if n <= 0 {
        Seq::empty()
    } else {
        let rest = onnx_variants(items, n - 1);
        if is_onnx_anchor(items[n - 1].path@) { rest.push(onnx_variant(items, items[n - 1])) } else { rest }
    }
}

/// All variants of a repository tree: standalone GGUF files, then shard groups in
/// order of first appearance, then ONNX graphs.
pub open spec fn tree_variants(items: Seq<HfTreeItem>) -> Seq<VariantView> {
    let bases = shard_bases(item_paths(items), items.len() as int);
    standalone_variants(items, items.len() as int) + Seq::new(
        bases.len(),
        |k: int| shard_variant(items, bases[k]),
    ) + onnx_variants(items, items.len() as int)
}

/// Views of variants.
pub open spec fn variant_views(v: Seq<HfVariant>) -> Seq<VariantView> {
    Seq::new(v.len(), |i: int| v[i]@)
}


fn make_variant(
    fname: String,
    format: &str,
    quant: String,
    primary: String,
    files: Vec<String>,
    size: u64,
) -> (r: HfVariant)
    ensures
        r@ == (VariantView {
            variant_id: fname@,
            format_type: format@,
            quant_tag: quant@,
            primary_file: primary@,
            all_files: kept_metadata(string_views(files@), string_views(files@)),
            filename: fname@,
            size_bytes: size,
        }),
{
    let mut files = files;
    AssetBundler::filter_duplicate_metadata_files(&mut files);
    HfVariant {
        variant_id: fname.clone(),
        format_type: format.to_owned(),
        quant_tag: quant,
        primary_file: primary,
        all_files: files,
        filename: fname,
        size_bytes: size,
    }
}

fn push_variant(v: &mut Vec<HfVariant>, x: HfVariant)
    ensures
        variant_views(final(v)@) == variant_views(old(v)@).push(x@),
{
    let ghost xv = x@;
    v.push(x);
    assert(variant_views(v@) =~= variant_views(old(v)@).push(xv));
}

/// Variants of the standalone GGUF files.
fn standalone_gguf_variants(
    items: &Vec<HfTreeItem>,
    mm: &Vec<&str>,
    mtp: &Vec<&str>,
    metas: &Vec<String>,
) -> (r: Vec<HfVariant>)
    requires
        views(mm@) == listing_mmprojs(item_paths(items@)),
        views(mtp@) == listing_mtps(item_paths(items@)),
        string_views(metas@) == listing_metadata(item_paths(items@)),
    ensures
        variant_views(r@) == standalone_variants(items@, items@.len() as int),
{
    let ghost ps = item_paths(items@);
    let mut out: Vec<HfVariant> = Vec::new();
    let mut i: usize = 0;
    assert(variant_views(out@) =~= Seq::<VariantView>::empty());
    while i < items.len()
        invariant
            i <= items@.len(),
            ps == item_paths(items@),
            views(mm@) == listing_mmprojs(ps),
            views(mtp@) == listing_mtps(ps),
            string_views(metas@) == listing_metadata(ps),
            variant_views(out@) == standalone_variants(items@, i as int),
        decreases items.len() - i,
    {
        let path = &items[i].path;
        if let GgufKind::Standalone = gguf_kind(path.as_str()) {
            let fname = file_name_or_path(path.as_str());
            let quant = UniversalQuantization::extract_quant_tag(fname.as_str());
            let mut files: Vec<String> = Vec::new();
            push_path(&mut files, path);
            let tail = gguf_companion_files(mm, mtp, metas, path.as_str(), quant.as_str(), Ghost(ps));
            append_paths(&mut files, &tail);
            let size = match items[i].size {
                Some(s) => s,
                None => 0,
            };
            let v = make_variant(fname, "gguf", quant, path.clone(), files, size);
            proof {
                assert(string_views(files@) =~= seq![path@] + gguf_companions(ps, path@, quant@)) by {
                    assert(string_views(seq![*path]) =~= seq![path@]);
                }
            }
            push_variant(&mut out, v);
        }
        i = i + 1;
    }
    out
}


proof fn lemma_base_has_member(paths: Seq<Seq<char>>, b: Seq<char>, n: int)
    requires
        0 <= n <= paths.len(),
        shard_bases(paths, n).contains(b),
    ensures
        shard_members(paths, b, n).len() > 0,
    decreases n,
{
    if n > 0 {
        let rest = shard_bases(paths, n - 1);
        if rest.contains(b) {
            lemma_base_has_member(paths, b, n - 1);
        } else {
            match gguf_role(paths[n - 1]) {
                GgufRole::Shard(c) => {
                    if !rest.contains(c) {
                        if c != b {
                            assert(rest.push(c).contains(b));
                            let k = choose|k: int| 0 <= k < rest.push(c).len() && rest.push(c)[k] == b;
                            assert(rest.contains(b)) by {
                                assert(rest[k] == b);
                            }
                        }
                    }
                },
                _ => {},
            }
        }
    }
}

/// Shard bases of the listing, in first-seen order.
fn shard_group_bases(items: &Vec<HfTreeItem>) -> (r: Vec<String>)
    ensures
        string_views(r@) == shard_bases(item_paths(items@), items@.len() as int),
{
    let ghost ps = item_paths(items@);
    let mut r: Vec<String> = Vec::new();
    let mut i: usize = 0;
    assert(string_views(r@) =~= Seq::<Seq<char>>::empty());
    while i < items.len()
        invariant
            i <= items@.len(),
            ps == item_paths(items@),
            string_views(r@) == shard_bases(ps, i as int),
        decreases items.len() - i,
    {
        if let GgufKind::Shard(b) = gguf_kind(items[i].path.as_str()) {
            if !crate::text::strings_contain(r.as_slice(), b.as_str()) {
                push_path(&mut r, &b);
            }
        }
        i = i + 1;
    }
    r
}

/// The variant of the shard group with base `base`.
fn shard_group_variant(
    items: &Vec<HfTreeItem>,
    base: &String,
    mm: &Vec<&str>,
    mtp: &Vec<&str>,
    metas: &Vec<String>,
) -> (r: HfVariant)
    requires
        shard_bases(item_paths(items@), items@.len() as int).contains(base@),
        views(mm@) == listing_mmprojs(item_paths(items@)),
        views(mtp@) == listing_mtps(item_paths(items@)),
        string_views(metas@) == listing_metadata(item_paths(items@)),
    ensures
        r@ == shard_variant(items@, base@),
{
    let ghost ps = item_paths(items@);
    let bc = chars_of(base.as_str());
    let mut members: Vec<String> = Vec::new();
    let mut size: u64 = 0;
    let mut i: usize = 0;
    assert(string_views(members@) =~= Seq::<Seq<char>>::empty());
    while i < items.len()
        invariant
            i <= items@.len(),
            ps == item_paths(items@),
            bc@ == base@,
            string_views(members@) == shard_members(ps, base@, i as int),
            size == size_where(items@, |p: Seq<char>| gguf_role(p) == GgufRole::Shard(base@), i as int),
        decreases items.len() - i,
    {
        if let GgufKind::Shard(b) = gguf_kind(items[i].path.as_str()) {
            let b2 = chars_of(b.as_str());
            if crate::text::chars_eq(&b2, &bc) {
                push_path(&mut members, &items[i].path);
                let add = match items[i].size {
                    Some(s) => s,
                    None => 0,
                };
                size = size.wrapping_add(add);
            }
        }
        i = i + 1;
    }
    proof {
        lemma_base_has_member(ps, base@, ps.len() as int);
        let m = string_views(members@);
        crate::order::lemma_lex_total_ordering();
        m.lemma_sort_by_ensures(lex_leq());
        vstd::seq_lib::to_multiset_len(m);
        vstd::seq_lib::to_multiset_len(m.sort_by(lex_leq()));
    }
    let sorted = sort_strings(members);
    let first = sorted[0].clone();
    let fname = file_name_or_path(first.as_str());
    let quant = UniversalQuantization::extract_quant_tag(fname.as_str());
    let mut files: Vec<String> = Vec::new();
    append_paths(&mut files, &sorted);
    let tail = gguf_companion_files(mm, mtp, metas, first.as_str(), quant.as_str(), Ghost(ps));
    append_paths(&mut files, &tail);
    proof {
        assert(string_views(sorted@)[0] == sorted@[0]@);
        assert(string_views(files@) =~= string_views(sorted@) + gguf_companions(ps, first@, quant@));
    }
    make_variant(fname, "gguf", quant, first, files, size)
}


fn is_companion_of_exec(d: &str, p_parent: &[char], p_clean: &String) -> (r: bool)
    ensures
        forall|p: Seq<char>| p_parent@ == parent_dir(p) && p_clean@ == strip_onnx_spec(p) ==> r
            == is_companion_of(d@, p),
{
    if !UniversalQuantization::is_onnx_companion_file(d) {
        return false;
    }
    let dp = parent_or_empty(d);
    let pp = string_of(p_parent);
    let dc = chars_of(d);
    let near = chars_eq(&dp, p_parent) || has_prefix(&dc, pp.as_str());
    if !near {
        return false;
    }
    let dclean = UniversalQuantization::strip_onnx_companion_suffix(d);
    let a = chars_of(dclean.as_str());
    let b = chars_of(p_clean.as_str());
    chars_eq(&a, &b)
}

/// The variant of the ONNX graph `items[k]`.
fn onnx_graph_variant(items: &Vec<HfTreeItem>, k: usize, metas: &Vec<String>) -> (r: HfVariant)
    requires
        k < items@.len(),
        string_views(metas@) == listing_metadata(item_paths(items@)),
    ensures
        r@ == onnx_variant(items@, items@[k as int]),
{
    let ghost ps = item_paths(items@);
    let path = &items[k].path;
    let ghost pv = path@;
    let parent = parent_or_empty(path.as_str());
    let clean = UniversalQuantization::strip_onnx_companion_suffix(path.as_str());
    let mut data: Vec<String> = Vec::new();
    let mut dsize: u64 = 0;
    let mut i: usize = 0;
    assert(string_views(data@) =~= Seq::<Seq<char>>::empty());
    while i < items.len()
        invariant
            i <= items@.len(),
            ps == item_paths(items@),
            parent@ == parent_dir(pv),
            clean@ == strip_onnx_spec(pv),
            string_views(data@) == paths_where(ps, |d: Seq<char>| is_companion_of(d, pv), i as int),
            dsize == size_where(items@, |d: Seq<char>| is_companion_of(d, pv), i as int),
        decreases items.len() - i,
    {
        if is_companion_of_exec(items[i].path.as_str(), &parent, &clean) {
            push_path(&mut data, &items[i].path);
            let add = match items[i].size {
                Some(s) => s,
                None => 0,
            };
            dsize = dsize.wrapping_add(add);
        }
        i = i + 1;
    }
    let own = match items[k].size {
        Some(s) => s,
        None => 0,
    };
    let size = own.wrapping_add(dsize);
    let fname = file_name_or_path(path.as_str());
    let quant = UniversalQuantization::extract_quant_tag(fname.as_str());
    let mut files: Vec<String> = Vec::new();
    push_path(&mut files, path);
    append_paths(&mut files, &data);
    let compat = compatible_metadata(metas, path.as_str());
    append_paths(&mut files, &compat);
    make_variant(fname, "onnx", quant, path.clone(), files, size)
}

/// Variants of the ONNX graphs of the listing.
fn onnx_graph_variants(items: &Vec<HfTreeItem>, metas: &Vec<String>) -> (r: Vec<HfVariant>)
    requires
        string_views(metas@) == listing_metadata(item_paths(items@)),
    ensures
        variant_views(r@) == onnx_variants(items@, items@.len() as int),
{
    let mut out: Vec<HfVariant> = Vec::new();
    let mut i: usize = 0;
    assert(variant_views(out@) =~= Seq::<VariantView>::empty());
    while i < items.len()
        invariant
            i <= items@.len(),
            string_views(metas@) == listing_metadata(item_paths(items@)),
            variant_views(out@) == onnx_variants(items@, i as int),
        decreases items.len() - i,
    {
        let l = lower_chars(items[i].path.as_str());
        if has_suffix(&l, ".onnx") && !TtsAssetResolver::is_subcomponent_file(items[i].path.as_str()) {
            let v = onnx_graph_variant(items, i, metas);
            push_variant(&mut out, v);
        }
        i = i + 1;
    }
    out
}

/// Message when a repository holds no GGUF or ONNX model.
pub open spec fn no_variants_message(repo_id: Seq<char>) -> Seq<char> {
    "No supported model files (.gguf, .onnx) found in repository '"@ + repo_id + "'."@
}

pub struct HuggingFaceHub;

impl HuggingFaceHub {
    /// Groups a repository's file tree into variants: each standalone GGUF file, each
    /// group of GGUF shards (ordered by path, first shard primary), and each ONNX graph
    /// that is not a pipeline sub-stage with its external-data files.  GGUF variants
    /// carry the preferred mmproj and the closest MTP helper; every variant carries its
    /// compatible metadata, with root duplicates of subfolder files dropped.  A tree
    /// without any variant is an error.
    pub fn list_variants(repo_id: &str, items: &Vec<HfTreeItem>) -> (r: Result<Vec<HfVariant>, String>)
        ensures
            match r {
                Ok(v) => variant_views(v@) == tree_variants(items@) && v@.len() > 0,
                Err(m) => tree_variants(items@).len() == 0 && m@ == no_variants_message(repo_id@),
            },
    {
        let ghost ps = item_paths(items@);
        let metas = metadata_paths(items);
        let mm = helper_paths(items, true);
        let mtp = helper_paths(items, false);
        let mut variants = standalone_gguf_variants(items, &mm, &mtp, &metas);
        let bases = shard_group_bases(items);
        let ghost bv = string_views(bases@);
        let ghost head = variant_views(variants@);
        let mut k: usize = 0;
        while k < bases.len()
            invariant
                k <= bases@.len(),
                ps == item_paths(items@),
                bv == string_views(bases@),
                bv == shard_bases(ps, items@.len() as int),
                views(mm@) == listing_mmprojs(ps),
                views(mtp@) == listing_mtps(ps),
                string_views(metas@) == listing_metadata(ps),
                variant_views(variants@) == head + Seq::new(k as nat, |j: int| shard_variant(items@, bv[j])),
            decreases bases.len() - k,
        {
            proof {
                assert(bv[k as int] == bases@[k as int]@);
                assert(bv.contains(bv[k as int]));
            }
            let v = shard_group_variant(items, &bases[k], &mm, &mtp, &metas);
            push_variant(&mut variants, v);
            k = k + 1;
            assert(variant_views(variants@) =~= head + Seq::new(k as nat, |j: int| shard_variant(items@, bv[j])));
        }
        let mut onnx = onnx_graph_variants(items, &metas);
        let ghost mid = variants@;
        let ghost ov = onnx@;
        variants.append(&mut onnx);
        proof {
            assert(variant_views(variants@) =~= variant_views(mid) + variant_views(ov));
            assert(variant_views(variants@) =~= tree_variants(items@));
        }
        if variants.len() == 0 {
            let a = chars_of("No supported model files (.gguf, .onnx) found in repository '");
            let b = crate::text::concat_chars(&a, &chars_of(repo_id));
            let c = concat_str(&b, "'.");
            return Err(string_of(&c));
        }
        Ok(variants)
    }
}


// ───────────────────────── hub requests ─────────────────────────

/// The `next` page URL of a `Link` header: the first comma-separated entry holding
/// `rel="next"` whose first `<` comes before its first `>`, read between them.
pub open spec fn next_link_from(parts: Seq<Seq<char>>, k: int) -> Option<Seq<char>>
    decreases parts.len() - k,
{
    if k < 0 || k >= parts.len() {
        None
    } else {
        let part = crate::text::trim(parts[k]);
        let found = if contains(part, "rel=\"next\""@) {
            match (crate::text::find(part, seq!['<']), crate::text::find(part, seq!['>'])) {
                (Some(a), Some(b)) => if a < b { Some(part.subrange(a + 1, b)) } else { None },
                _ => None,
            }
        } else {
            None
        };
        if found is Some {
            found
        } else {
            next_link_from(parts, k + 1)
        }
    }
}

pub open spec fn next_link(header: Seq<char>) -> Option<Seq<char>> {
    next_link_from(crate::text::split_on(header, seq![',']), 0)
}

/// A token as read from the environment or a token file: trimmed, absent when empty.
pub open spec fn usable_token(raw: Seq<char>) -> Option<Seq<char>> {
    if crate::text::trim(raw).len() > 0 { Some(crate::text::trim(raw)) } else { None }
}

/// Display name of a repository: the piece after its last `/`.
pub open spec fn repo_display_name(repo_id: Seq<char>) -> Seq<char> {
    crate::text::split_on(repo_id, seq!['/']).last()
}

impl HuggingFaceHub {
    /// URL of the next page of a tree listing, from the response's `Link` header.
    pub fn next_page_url(link_header: &str) -> (r: Option<String>)
        ensures
            opt_view(r) == next_link(link_header@),
    {
        let hc = chars_of(link_header);
        let seps = vec![','];
        assert(seps@ =~= seq![',']);
        let parts = crate::text::split_chars(&hc, &seps);
        let ghost gp = crate::text::split_on(link_header@, seq![',']);
        let lt = vec!['<'];
        let gt = vec!['>'];
        assert(lt@ =~= seq!['<']);
        assert(gt@ =~= seq!['>']);
        let mut k: usize = 0;
        while k < parts.len()
            invariant
                parts@.len() == gp.len(),
                gp == crate::text::split_on(link_header@, seq![',']),
                forall|j: int| 0 <= j < parts@.len() ==> #[trigger] parts@[j]@ == gp[j],
                lt@ == seq!['<'],
                gt@ == seq!['>'],
                k <= parts@.len(),
                next_link(link_header@) == next_link_from(gp, k as int),
            decreases parts.len() - k,
        {
            let part = crate::text::trim_chars(&parts[k]);
            if crate::text::has_sub(&part, "rel=\"next\"") {
                if let Some(a) = crate::text::find_chars(&part, &lt) {
                    if let Some(b) = crate::text::find_chars(&part, &gt) {
                        if a < b {
                            proof {
                                crate::text::lemma_find(part@, seq!['<']);
                                crate::text::lemma_find(part@, seq!['>']);
                            }
                            let url = crate::text::slice_copy(&part, a + 1, b);
                            return Some(string_of(&url));
                        }
                    }
                }
            }
            k = k + 1;
        }
        None
    }

    /// A token value, trimmed; `None` when nothing is left.
    pub fn usable_token(raw: &str) -> (r: Option<String>)
        ensures
            opt_view(r) == usable_token(raw@),
    {
        let t = crate::text::trim_chars(&chars_of(raw));
        if t.len() > 0 {
            Some(string_of(&t))
        } else {
            None
        }
    }

    /// Display name of a repository: the piece after its last `/`.
    pub fn repo_display_name(repo_id: &str) -> (r: String)
        ensures
            r@ == repo_display_name(repo_id@),
    {
        let rc = chars_of(repo_id);
        let seps = vec!['/'];
        assert(seps@ =~= seq!['/']);
        let parts = crate::text::split_chars(&rc, &seps);
        string_of(&parts[parts.len() - 1])
    }

    /// Download URL of a file of a repository's main branch.
    pub fn download_url(repo_id: &str, file: &str) -> (r: String)
        ensures
            r@ == "https://huggingface.co/"@ + repo_id@ + "/resolve/main/"@ + file@,
    {
        let a = chars_of("https://huggingface.co/");
        let b = crate::text::concat_chars(&a, &chars_of(repo_id));
        let c = concat_str(&b, "/resolve/main/");
        let d = crate::text::concat_chars(&c, &chars_of(file));
        string_of(&d)
    }
}

/// The non-empty pieces of `parts`, in order.
pub open spec fn nonempty_parts(parts: Seq<Seq<char>>) -> Seq<Seq<char>>
    decreases parts.len(),
{
    if parts.len() == 0 {
        Seq::empty()
    } else {
        let rest = nonempty_parts(parts.drop_last());
        if parts.last().len() > 0 {
            rest.push(parts.last())
        } else {
            rest
        }
    }
}

/// The folder names on the way to the file `p` (its parent, `\\` read as `/`,
/// split on `/`, empty names dropped).
pub open spec fn dir_parts(p: Seq<char>) -> Seq<Seq<char>> {
    nonempty_parts(split_on(replace_char(or_else(path_parent(p), Seq::<char>::empty()), '\\', '/'), seq!['/']))
}

/// A metadata file belongs with a primary file when it sits at the repository's
/// root, or when its folders are a leading part of the primary file's folders.
pub open spec fn directory_prefix_spec(meta: Seq<char>, primary: Seq<char>) -> bool {
    let m = dir_parts(meta);
    let p = dir_parts(primary);
    ||| or_else(path_parent(meta), Seq::<char>::empty()).len() == 0
    ||| (m.len() <= p.len() && forall|i: int| 0 <= i < m.len() ==> #[trigger] m[i] == p[i])
}

fn dir_parts_of(path: &str) -> (r: Vec<Vec<char>>)
    ensures
        r@.map_values(|v: Vec<char>| v@) == dir_parts(path@),
{
    let dir = parent_or_empty(path);
    let slashed = replace_char_chars(&dir, '\\', '/');
    let seps = vec!['/'];
    let pieces = split_chars(&slashed, &seps);
    let ghost all = split_on(slashed@, seps@);
    assert(seps@ == seq!['/']);
    let mut r: Vec<Vec<char>> = Vec::new();
    let mut i: usize = 0;
    assert(all.subrange(0, 0) =~= Seq::<Seq<char>>::empty());
    assert(r@.map_values(|v: Vec<char>| v@) =~= Seq::<Seq<char>>::empty());
    while i < pieces.len()
        invariant
            i <= pieces@.len(),
            pieces@.len() == all.len(),
            forall|k: int| 0 <= k < pieces@.len() ==> #[trigger] pieces@[k]@ == all[k],
            r@.map_values(|v: Vec<char>| v@) == nonempty_parts(all.subrange(0, i as int)),
        decreases pieces.len() - i,
    {
        let ghost before = r@.map_values(|v: Vec<char>| v@);
        assert(all.subrange(0, i + 1).drop_last() =~= all.subrange(0, i as int));
        assert(all.subrange(0, i + 1).last() == all[i as int]);
        let piece = slice_copy(&pieces[i], 0, pieces[i].len());
        assert(piece@ =~= pieces@[i as int]@);
        if piece.len() > 0 {
            r.push(piece);
            assert(r@.map_values(|v: Vec<char>| v@) =~= before.push(all[i as int]));
        }
        i = i + 1;
    }
    assert(all.subrange(0, all.len() as int) =~= all);
    r
}

/// Is the metadata file `meta_path` shared with the variant whose primary file
/// is `primary_path`?
pub fn is_directory_prefix(meta_path: &str, primary_path: &str) -> (r: bool)
    ensures
        r == directory_prefix_spec(meta_path@, primary_path@),
{
    let meta_dir = parent_or_empty(meta_path);
    if meta_dir.len() == 0 {
        return true;
    }
    let m = dir_parts_of(meta_path);
    let p = dir_parts_of(primary_path);
    let ghost mv = m@.map_values(|v: Vec<char>| v@);
    let ghost pv = p@.map_values(|v: Vec<char>| v@);
    if m.len() > p.len() {
        return false;
    }
    let mut i: usize = 0;
    while i < m.len()
        invariant
            i <= m@.len(),
            m@.len() <= p@.len(),
            mv == m@.map_values(|v: Vec<char>| v@),
            pv == p@.map_values(|v: Vec<char>| v@),
            mv == dir_parts(meta_path@),
            pv == dir_parts(primary_path@),
            or_else(path_parent(meta_path@), Seq::<char>::empty()).len() > 0,
            forall|k: int| 0 <= k < i ==> #[trigger] mv[k] == pv[k],
        decreases m.len() - i,
    {
        assert(mv[i as int] == m@[i as int]@ && pv[i as int] == p@[i as int]@);
        if !chars_eq(&m[i], &p[i]) {
            return false;
        }
        i = i + 1;
    }
    true
}


// ───────────────────────── Laws ─────────────────────────

/// Sum of the sizes of the items that satisfy `keep`, as a whole number.
pub open spec fn total_size(items: Seq<HfTreeItem>, keep: spec_fn(Seq<char>) -> bool, n: int) -> int
    decreases n,
{
    if n <= 0 {
        0
    } else {
        total_size(items, keep, n - 1) + if keep(items[n - 1].path@) {
            item_size(items[n - 1]) as int
        } else {
            0
        }
    }
}

/// The files whose bytes an ONNX variant with graph `p` downloads as weights: the graph
/// itself and its external-data files.
pub open spec fn onnx_weight_files(p: Seq<char>) -> spec_fn(Seq<char>) -> bool {
    |d: Seq<char>| d == p || is_companion_of(d, p)
}

/// No two items of the tree share a path.
pub open spec fn distinct_paths(items: Seq<HfTreeItem>) -> bool {
    forall|i: int, j: int|
        0 <= i < items.len() && 0 <= j < items.len() && i != j ==> items[i].path@ != items[j].path@
}

proof fn lemma_size_where_is_total(items: Seq<HfTreeItem>, keep: spec_fn(Seq<char>) -> bool, n: int)
    requires
        n <= items.len(),
    ensures
        size_where(items, keep, n) as int == total_size(items, keep, n) % 0x1_0000_0000_0000_0000,
    decreases n,
{
    if n > 0 {
        lemma_size_where_is_total(items, keep, n - 1);
        let m: int = 0x1_0000_0000_0000_0000;
        let prev = total_size(items, keep, n - 1);
        let sw = size_where(items, keep, n - 1) as int;
        let s = item_size(items[n - 1]) as int;
        if keep(items[n - 1].path@) {
            vstd::arithmetic::div_mod::lemma_add_mod_noop(prev, s, m);
            vstd::arithmetic::div_mod::lemma_small_mod(s as nat, m as nat);
            vstd::arithmetic::div_mod::lemma_mod_twice(prev, m);
            if sw + s > u64::MAX {
                vstd::arithmetic::div_mod::lemma_mod_sub_multiples_vanish(sw + s, m);
                vstd::arithmetic::div_mod::lemma_small_mod((sw + s - m) as nat, m as nat);
            } else {
                vstd::arithmetic::div_mod::lemma_small_mod((sw + s) as nat, m as nat);
            }
        } else {
            vstd::arithmetic::div_mod::lemma_mod_twice(prev, m);
        }
    }
}

proof fn lemma_total_split(
    items: Seq<HfTreeItem>,
    all: spec_fn(Seq<char>) -> bool,
    part: spec_fn(Seq<char>) -> bool,
    k: int,
    n: int,
)
    requires
        0 <= k < items.len(),
        n <= items.len(),
        distinct_paths(items),
        forall|d: Seq<char>| #[trigger] all(d) == (d == items[k].path@ || part(d)),
        !part(items[k].path@),
    ensures
        total_size(items, all, n) == total_size(items, part, n) + if k < n {
            item_size(items[k]) as int
        } else {
            0
        },
    decreases n,
{
    if n > 0 {
        lemma_total_split(items, all, part, k, n - 1);
        assert(all(items[n - 1].path@) == (items[n - 1].path@ == items[k].path@ || part(
            items[n - 1].path@,
        )));
        if n - 1 != k {
            assert(items[n - 1].path@ != items[k].path@);
        }
    }
}

proof fn lemma_standalone_is_gguf(items: Seq<HfTreeItem>, n: int, i: int)
    requires
        0 <= i < standalone_variants(items, n).len(),
    ensures
        standalone_variants(items, n)[i].format_type == "gguf"@,
    decreases n,
{
    if n > 0 {
        let rest = standalone_variants(items, n - 1);
        if i < rest.len() {
            lemma_standalone_is_gguf(items, n - 1, i);
        }
    }
}

proof fn lemma_onnx_variant_anchor(items: Seq<HfTreeItem>, n: int, i: int) -> (k: int)
    requires
        n <= items.len(),
        0 <= i < onnx_variants(items, n).len(),
    ensures
        0 <= k < n,
        is_onnx_anchor(items[k].path@),
        onnx_variants(items, n)[i] == onnx_variant(items, items[k]),
    decreases n,
{
    let rest = onnx_variants(items, n - 1);
    if i < rest.len() {
        lemma_onnx_variant_anchor(items, n - 1, i)
    } else {
        n - 1
    }
}

proof fn lemma_anchor_is_not_its_own_data(p: Seq<char>)
    requires
        is_onnx_anchor(p),
    ensures
        !is_companion_of(p, p),
{
    reveal_strlit(".onnx");
    reveal_strlit(".onnx.data");
    reveal_strlit(".onnx_data");
    reveal_strlit(".data");
    let l = lowercase(p);
    assert(l[l.len() - 1] == ".onnx"@[4]);
    assert(ONNX_COMPANION_SUFFIXES@ == seq![".onnx.data", ".onnx_data", ".data"]);
    if ends_with_any(l, ONNX_COMPANION_SUFFIXES@) {
        let k = choose|k: int|
            0 <= k < ONNX_COMPANION_SUFFIXES@.len() && ends_with(l, #[trigger] ONNX_COMPANION_SUFFIXES@[k]@);
        let suf = ONNX_COMPANION_SUFFIXES@[k]@;
        assert(suf[suf.len() - 1] == 'a');
        assert(l[l.len() - 1] == l.subrange(l.len() - suf.len(), l.len() as int)[suf.len() - 1]);
    }
}

/// The size of every ONNX variant listed for a repository tree is the sum (modulo 2^64)
/// of the sizes of the files it downloads as weights: its graph and each external-data
/// file of that graph.
pub proof fn lemma_onnx_variant_counts_its_data(items: Seq<HfTreeItem>, j: int)
    requires
        distinct_paths(items),
        0 <= j < tree_variants(items).len(),
        tree_variants(items)[j].format_type == "onnx"@,
    ensures
        tree_variants(items)[j].size_bytes as int == total_size(
            items,
            onnx_weight_files(tree_variants(items)[j].primary_file),
            items.len() as int,
        ) % 0x1_0000_0000_0000_0000,
{
    let n = items.len() as int;
    let a = standalone_variants(items, n);
    let bases = shard_bases(item_paths(items), n);
    let b = Seq::new(bases.len(), |k: int| shard_variant(items, bases[k]));
    let c = onnx_variants(items, n);
    assert(tree_variants(items) == a + b + c);
    reveal_strlit("gguf");
    reveal_strlit("onnx");
    assert("gguf"@[0] != "onnx"@[0]);
    if j < a.len() {
        assert(tree_variants(items)[j] == a[j]);
        lemma_standalone_is_gguf(items, n, j);
        assert(false);
    } else if j < a.len() + b.len() {
        assert(tree_variants(items)[j] == b[j - a.len()]);
        assert(false);
    }
    let i = j - a.len() - b.len();
    assert(tree_variants(items)[j] == c[i]);
    let k = lemma_onnx_variant_anchor(items, n, i);
    let p = items[k].path@;
    let part = |d: Seq<char>| is_companion_of(d, p);
    lemma_anchor_is_not_its_own_data(p);
    lemma_total_split(items, onnx_weight_files(p), part, k, n);
    lemma_size_where_is_total(items, part, n);
    let m: int = 0x1_0000_0000_0000_0000;
    let sw = size_where(items, part, n) as int;
    let s = item_size(items[k]) as int;
    let tot = total_size(items, part, n);
    vstd::arithmetic::div_mod::lemma_add_mod_noop(tot, s, m);
    vstd::arithmetic::div_mod::lemma_small_mod(s as nat, m as nat);
    if sw + s > u64::MAX {
        vstd::arithmetic::div_mod::lemma_mod_sub_multiples_vanish(sw + s, m);
        vstd::arithmetic::div_mod::lemma_small_mod((sw + s - m) as nat, m as nat);
    } else {
        vstd::arithmetic::div_mod::lemma_small_mod((sw + s) as nat, m as nat);
    }
}

} // verus!
