//! Mixture-of-experts detection from a model's header: expert count, active experts
//! per token, MoE layer count and the byte split between routed experts and the
//! dense backbone.
//!
//! Byte totals are sums of tensor dimension entries, accumulated modulo 2^64.
use vstd::prelude::*;
use crate::text::{
    chars_of, contains, contains_any, ends_with, eq_str, extension_of, has_any_sub, has_sub,
    has_suffix, lower_chars, lowercase, or_else, parse_usize, parse_usize_chars, path_extension,
    split_chars, split_on,
};
use crate::discovery::probe::{meta_get, meta_index_from};
use vstd::wrapping::u64_specs::{wrapping_add, wrapping_mul};

verus! {

/// Structural facts about a mixture-of-experts model.
pub struct MoeModelInfo {
    pub is_moe: bool,
    pub expert_count: usize,
    pub moe_layer_count: usize,
    pub active_experts_per_token: usize,
    pub total_expert_bytes: u64,
    pub expert_size_bytes: u64,
    pub dense_backbone_bytes: u64,
}

/// Not a mixture-of-experts model: everything zero.
pub open spec fn is_dense_info(m: MoeModelInfo) -> bool {
    &&& !m.is_moe
    &&& m.expert_count == 0
    &&& m.moe_layer_count == 0
    &&& m.active_experts_per_token == 0
    &&& m.total_expert_bytes == 0
    &&& m.expert_size_bytes == 0
    &&& m.dense_backbone_bytes == 0
}

impl Default for MoeModelInfo {
    fn default() -> (r: Self)
        ensures
            is_dense_info(r),
    {
        MoeModelInfo {
            is_moe: false,
            expert_count: 0,
            moe_layer_count: 0,
            active_experts_per_token: 0,
            total_expert_bytes: 0,
            expert_size_bytes: 0,
            dense_backbone_bytes: 0,
        }
    }
}

/// Bytes the expert cache should hold: `max(2 × active experts, 16)` experts, none
/// for a dense model or an unknown expert size.
pub open spec fn cache_bytes(m: MoeModelInfo) -> int {
    if !m.is_moe || m.expert_size_bytes == 0 {
        0
    } else {
        let hot = if m.active_experts_per_token * 2 > 16 { m.active_experts_per_token * 2 } else { 16 };
        hot * m.expert_size_bytes
    }
}

impl MoeModelInfo {
    /// Bytes the expert cache should hold (the cache budget before conversion to GiB).
    pub fn recommended_cache_bytes(&self) -> (r: u64)
        requires
            self.active_experts_per_token * 2 <= usize::MAX,
            cache_bytes(*self) <= u64::MAX,
        ensures
            r == cache_bytes(*self),
    {
        if !self.is_moe || self.expert_size_bytes == 0 {
            return 0;
        }
        let doubled = self.active_experts_per_token * 2;
        let hot: usize = if doubled > 16 { doubled } else { 16 };
        (hot as u64) * self.expert_size_bytes
    }
}

// ───────────────────────── layer indices ─────────────────────────

/// The layer index of a tensor name: the number after the first `blk` or `layers`
/// dot-separated piece that is followed by a number.
pub open spec fn layer_index_from(parts: Seq<Seq<char>>, i: int) -> Option<usize>
    decreases parts.len() - i,
{
    if i < 0 || i >= parts.len() {
        None
    } else if (parts[i] == "blk"@ || parts[i] == "layers"@) && i + 1 < parts.len() && parse_usize(
        parts[i + 1],
    ) is Some {
        parse_usize(parts[i + 1])
    } else {
        layer_index_from(parts, i + 1)
    }
}

pub open spec fn layer_index(name: Seq<char>) -> Option<usize> {
    layer_index_from(split_on(name, seq!['.']), 0)
}

/// Layer index in a tensor name such as `blk.42.ffn_gate_exps.weight` (42).
pub fn extract_layer_index(name: &str) -> (r: Option<usize>)
    ensures
        r == layer_index(name@),
{
    let nc = chars_of(name);
    let seps = vec!['.'];
    assert(seps@ =~= seq!['.']);
    let parts = split_chars(&nc, &seps);
    let ghost gp = split_on(name@, seq!['.']);
    let mut i: usize = 0;
    while i < parts.len()
        invariant
            parts@.len() == gp.len(),
            gp == split_on(name@, seq!['.']),
            forall|j: int| 0 <= j < parts@.len() ==> #[trigger] parts@[j]@ == gp[j],
            i <= parts@.len(),
            layer_index(name@) == layer_index_from(gp, i as int),
        decreases parts.len() - i,
    {
        if (eq_str(&parts[i], "blk") || eq_str(&parts[i], "layers")) && i + 1 < parts.len() {
            if let Some(idx) = parse_usize_chars(&parts[i + 1]) {
                return Some(idx);
            }
        }
        i = i + 1;
    }
    None
}

// ───────────────────────── GGUF header ─────────────────────────

pub const EXPERT_TENSOR_MARKERS: [&'static str; 4] = [
    "ffn_gate_exps", "ffn_up_exps", "ffn_down_exps", "ffn_experts",
];

/// A tensor holds routed experts.
pub open spec fn is_expert_tensor(lower_name: Seq<char>) -> bool {
    contains_any(lower_name, EXPERT_TENSOR_MARKERS@) || (contains(lower_name, "ffn_"@) && contains(
        lower_name,
        "exp"@,
    ))
}

/// Sum of a tensor's dimension entries (modulo 2^64).
pub open spec fn dims_sum(d: Seq<u64>) -> u64
    decreases d.len(),
{
    if d.len() == 0 {
        0
    } else {
        wrapping_add(dims_sum(d.drop_last()), d.last())
    }
}

/// Sum of `s` modulo 2^64.
pub open spec fn wrapping_sum(s: Seq<u64>) -> u64
    decreases s.len(),
{
    if s.len() == 0 {
        0
    } else {
        wrapping_add(wrapping_sum(s.drop_last()), s.last())
    }
}

/// `s` with `x` appended unless already present.
pub open spec fn push_distinct(s: Seq<usize>, x: usize) -> Seq<usize> {
    if s.contains(x) { s } else { s.push(x) }
}

/// Scan of the tensors for a model with `ec` experts: the distinct MoE layer indices
/// (first-seen order), the routed-expert bytes, the per-expert gate size samples, and
/// the dense bytes.
pub open spec fn moe_scan(ts: Seq<(String, Vec<u64>)>, ec: usize) -> (Seq<usize>, u64, Seq<u64>, u64)
    decreases ts.len(),
{
    if ts.len() == 0 {
        (Seq::empty(), 0, Seq::empty(), 0)
    } else {
        let (layers, expert, samples, dense) = moe_scan(ts.drop_last(), ec);
        let name = ts.last().0@;
        let lower = lowercase(name);
        let bytes = dims_sum(ts.last().1@);
        if is_expert_tensor(lower) {
            (
                match layer_index(name) {
                    Some(i) => push_distinct(layers, i),
                    None => layers,
                },
                wrapping_add(expert, bytes),
                if contains(lower, "ffn_gate_exps"@) { samples.push(bytes / (ec as u64)) } else { samples },
                dense,
            )
        } else {
            (layers, expert, samples, wrapping_add(dense, bytes))
        }
    }
}

/// Value of the first key ending in `.block_count`, parsed (0 when absent or not a number).
pub open spec fn block_count_from(m: Seq<(String, String)>, k: int) -> usize
    decreases m.len() - k,
{
    if k < 0 || k >= m.len() {
        0
    } else if ends_with(m[k].0@, ".block_count"@) {
        or_zero(parse_usize(m[k].1@))
    } else {
        block_count_from(m, k + 1)
    }
}

pub open spec fn at_least_one(x: u64) -> u64 {
    if x > 0 { x } else { 1 }
}

pub open spec fn or_zero(o: Option<usize>) -> usize {
    match o {
        Some(v) => v,
        None => 0,
    }
}

/// A stored value parsed as a count.
pub open spec fn meta_count(m: Seq<(String, String)>, key: Seq<char>) -> Option<usize> {
    match meta_get(m, key) {
        Some(v) => parse_usize(v),
        None => None,
    }
}

/// What a GGUF header says about experts.
pub open spec fn gguf_moe_matches(r: MoeModelInfo, m: Seq<(String, String)>, ts: Seq<(String, Vec<u64>)>) -> bool {
    let ec = or_zero(meta_count(m, "llm.expert_count"@));
    if ec == 0 {
        is_dense_info(r)
    } else {
        let active = match meta_count(m, "llm.expert_used_count"@) {
            Some(a) => a,
            None => if ec / 8 > 1 { (ec / 8) as usize } else { 1 },
        };
        let (layers, expert, samples, dense) = moe_scan(ts, ec);
        let layer_count = if layers.len() == 0 { block_count_from(m, 0) } else { layers.len() as usize };
        let size = if samples.len() > 0 {
            wrapping_mul(wrapping_sum(samples) / (samples.len() as u64), 3)
        } else if layer_count > 0 {
            expert / at_least_one(wrapping_mul(ec as u64, layer_count as u64))
        } else {
            0
        };
        &&& r.is_moe
        &&& r.expert_count == ec
        &&& r.moe_layer_count == layer_count
        &&& r.active_experts_per_token == active
        &&& r.total_expert_bytes == expert
        &&& r.expert_size_bytes == size
        &&& r.dense_backbone_bytes == dense
    }
}

fn meta_count_of(m: &Vec<(String, String)>, key: &str) -> (r: Option<usize>)
    ensures
        r == meta_count(m@, key@),
{
    let kc = chars_of(key);
    let mut k: usize = 0;
    while k < m.len()
        invariant
            k <= m@.len(),
            kc@ == key@,
            meta_index_from(m@, key@, 0) == meta_index_from(m@, key@, k as int),
        decreases m.len() - k,
    {
        let c = chars_of(m[k].0.as_str());
        if crate::text::chars_eq(&c, &kc) {
            let v = chars_of(m[k].1.as_str());
            return parse_usize_chars(&v);
        }
        k = k + 1;
    }
    None
}

fn block_count_of(m: &Vec<(String, String)>) -> (r: usize)
    ensures
        r == block_count_from(m@, 0),
{
    let mut k: usize = 0;
    while k < m.len()
        invariant
            k <= m@.len(),
            block_count_from(m@, 0) == block_count_from(m@, k as int),
        decreases m.len() - k,
    {
        let c = chars_of(m[k].0.as_str());
        if has_suffix(&c, ".block_count") {
            let v = chars_of(m[k].1.as_str());
            return match parse_usize_chars(&v) {
                Some(n) => n,
                None => 0,
            };
        }
        k = k + 1;
    }
    0
}

fn dims_sum_of(d: &Vec<u64>) -> (r: u64)
    ensures
        r == dims_sum(d@),
{
    let mut s: u64 = 0;
    let mut k: usize = 0;
    while k < d.len()
        invariant
            k <= d@.len(),
            s == dims_sum(d@.subrange(0, k as int)),
        decreases d.len() - k,
    {
        proof {
            assert(d@.subrange(0, k + 1).drop_last() =~= d@.subrange(0, k as int));
        }
        s = s.wrapping_add(d[k]);
        k = k + 1;
    }
    assert(d@.subrange(0, d@.len() as int) =~= d@);
    s
}

fn contains_usize(v: &Vec<usize>, x: usize) -> (r: bool)
    ensures
        r == v@.contains(x),
{
    let mut k: usize = 0;
    while k < v.len()
        invariant
            k <= v@.len(),
            forall|j: int| 0 <= j < k ==> v@[j] != x,
        decreases v.len() - k,
    {
        if v[k] == x {
            return true;
        }
        k = k + 1;
    }
    false
}

pub struct GgufMoeDetector;

impl GgufMoeDetector {
    /// Mixture-of-experts facts from a GGUF header: its metadata pairs (in the order
    /// they are read) and its tensors' names and dimensions.  A header without a
    /// positive `llm.expert_count` describes a dense model.
    pub fn detect(metadata: &Vec<(String, String)>, tensors: &Vec<(String, Vec<u64>)>) -> (r: MoeModelInfo)
        ensures
            gguf_moe_matches(r, metadata@, tensors@),
    {
        let expert_count = match meta_count_of(metadata, "llm.expert_count") {
            Some(n) => n,
            None => 0,
        };
        if expert_count == 0 {
            return MoeModelInfo::default();
        }
        let active = match meta_count_of(metadata, "llm.expert_used_count") {
            Some(a) => a,
            None => if expert_count / 8 > 1 { expert_count / 8 } else { 1 },
        };
        let block_count = block_count_of(metadata);

        let mut layers: Vec<usize> = Vec::new();
        let mut expert_bytes: u64 = 0;
        let mut samples: Vec<u64> = Vec::new();
        let mut dense: u64 = 0;
        let mut k: usize = 0;
        while k < tensors.len()
            invariant
                k <= tensors@.len(),
                expert_count > 0,
                (layers@, expert_bytes, samples@, dense) == moe_scan(tensors@.subrange(0, k as int), expert_count),
            decreases tensors.len() - k,
        {
            proof {
                assert(tensors@.subrange(0, k + 1).drop_last() =~= tensors@.subrange(0, k as int));
            }
            let lower = lower_chars(tensors[k].0.as_str());
            let bytes = dims_sum_of(&tensors[k].1);
            let is_expert = has_any_sub(&lower, &EXPERT_TENSOR_MARKERS) || (has_sub(&lower, "ffn_") && has_sub(
                &lower,
                "exp",
            ));
            if is_expert {
                expert_bytes = expert_bytes.wrapping_add(bytes);
                if let Some(idx) = extract_layer_index(tensors[k].0.as_str()) {
                    if !contains_usize(&layers, idx) {
                        layers.push(idx);
                    }
                }
                if has_sub(&lower, "ffn_gate_exps") {
                    samples.push(bytes / (expert_count as u64));
                }
            } else {
                dense = dense.wrapping_add(bytes);
            }
            k = k + 1;
        }
        proof {
            assert(tensors@.subrange(0, tensors@.len() as int) =~= tensors@);
        }
        let layer_count = if layers.len() == 0 { block_count } else { layers.len() };
        let expert_size = if samples.len() > 0 {
            let mut s: u64 = 0;
            let mut j: usize = 0;
            while j < samples.len()
                invariant
                    j <= samples@.len(),
                    s == wrapping_sum(samples@.subrange(0, j as int)),
                decreases samples.len() - j,
            {
                proof {
                    assert(samples@.subrange(0, j + 1).drop_last() =~= samples@.subrange(0, j as int));
                }
                s = s.wrapping_add(samples[j]);
                j = j + 1;
            }
            assert(samples@.subrange(0, samples@.len() as int) =~= samples@);
            (s / (samples.len() as u64)).wrapping_mul(3)
        } else if layer_count > 0 {
            let denom = (expert_count as u64).wrapping_mul(layer_count as u64);
            if denom > 0 {
                expert_bytes / denom
            } else {
                expert_bytes
            }
        } else {
            0
        };
        MoeModelInfo {
            is_moe: true,
            expert_count,
            moe_layer_count: layer_count,
            active_experts_per_token: active,
            total_expert_bytes: expert_bytes,
            expert_size_bytes: expert_size,
            dense_backbone_bytes: dense,
        }
    }
}


// ───────────────────────── ONNX config ─────────────────────────

/// What a model's `config.json` says about experts.
pub open spec fn onnx_moe_matches(
    r: MoeModelInfo,
    num_experts: Option<u64>,
    experts_per_token: Option<u64>,
    num_layers: Option<u64>,
) -> bool {
    let ne = (match num_experts { Some(n) => n, None => 0 }) as usize;
    if ne == 0 {
        is_dense_info(r)
    } else {
        &&& r.is_moe
        &&& r.expert_count == ne
        &&& r.active_experts_per_token == (match experts_per_token {
            Some(k) => k,
            None => (if ne / 8 > 1 { ne / 8 } else { 1 }) as u64,
        }) as usize
        &&& r.moe_layer_count == (match num_layers { Some(l) => l, None => 32 }) as usize
        &&& r.total_expert_bytes == 0
        &&& r.expert_size_bytes == 0
        &&& r.dense_backbone_bytes == 0
    }
}

/// Keys of a `config.json` that give the experts per layer, first present wins.
pub const EXPERT_COUNT_KEYS: [&'static str; 3] = ["num_experts", "num_local_experts", "n_routed_experts"];

/// Keys that give the experts active per token.
pub const ACTIVE_EXPERT_KEYS: [&'static str; 3] = ["num_experts_per_tok", "top_k", "num_selected_experts"];

/// Keys that give the layer count.
pub const LAYER_COUNT_KEYS: [&'static str; 2] = ["num_hidden_layers", "num_layers"];

/// Mixture-of-experts facts from the text of an ONNX model's `config.json`: for each
/// quantity the value under the first of its keys that is present (absent when
/// that value is no unsigned integer), then as `OnnxMoeDetector::parse_config`
/// gives them.  Text that is no JSON object gives the dense result.
pub fn moe_from_config_text(text: &str) -> (r: MoeModelInfo)
    ensures
        onnx_moe_matches(
            r,
            crate::json::u64_under(text@, EXPERT_COUNT_KEYS@),
            crate::json::u64_under(text@, ACTIVE_EXPERT_KEYS@),
            crate::json::u64_under(text@, LAYER_COUNT_KEYS@),
        ),
{
    let ne = crate::json::u64_under_keys(text, &EXPERT_COUNT_KEYS);
    let k = crate::json::u64_under_keys(text, &ACTIVE_EXPERT_KEYS);
    let l = crate::json::u64_under_keys(text, &LAYER_COUNT_KEYS);
    OnnxMoeDetector::parse_config(ne, k, l)
}

pub struct OnnxMoeDetector;

impl OnnxMoeDetector {
    /// Mixture-of-experts facts from the values of a model's `config.json`: the
    /// expert count (`num_experts`, `num_local_experts` or `n_routed_experts`), the
    /// experts per token (`num_experts_per_tok`, `top_k` or `num_selected_experts`;
    /// an eighth of the experts, at least one, when absent) and the layer count
    /// (`num_hidden_layers` or `num_layers`; 32 when absent).  Byte sizes stay unknown.
    pub fn parse_config(
        num_experts: Option<u64>,
        experts_per_token: Option<u64>,
        num_layers: Option<u64>,
    ) -> (r: MoeModelInfo)
        ensures
            onnx_moe_matches(r, num_experts, experts_per_token, num_layers),
    {
        let ne = (match num_experts {
            Some(n) => n,
            None => 0,
        }) as usize;
        if ne == 0 {
            return MoeModelInfo::default();
        }
        let fallback: usize = if ne / 8 > 1 { ne / 8 } else { 1 };
        let active = (match experts_per_token {
            Some(k) => k,
            None => fallback as u64,
        }) as usize;
        let layers = (match num_layers {
            Some(l) => l,
            None => 32,
        }) as usize;
        MoeModelInfo {
            is_moe: true,
            expert_count: ne,
            moe_layer_count: layers,
            active_experts_per_token: active,
            total_expert_bytes: 0,
            expert_size_bytes: 0,
            dense_backbone_bytes: 0,
        }
    }
}

/// Which detector reads a model file.
#[derive(Debug, Clone, Copy, PartialEq, Eq, Structural)]
pub enum MoeSource {
    Gguf,
    Onnx,
    Unsupported,
}

/// Detector for a file, by its lower-cased extension.
pub open spec fn moe_source_spec(p: Seq<char>) -> MoeSource {
    let ext = lowercase(or_else(path_extension(p), Seq::<char>::empty()));
    if ext == "gguf"@ {
        MoeSource::Gguf
    } else if ext == "onnx"@ {
        MoeSource::Onnx
    } else {
        MoeSource::Unsupported
    }
}

/// Which detector reads the model file at `model_path` (GGUF header or ONNX config).
pub fn moe_source(model_path: &str) -> (r: MoeSource)
    ensures
        r == moe_source_spec(model_path@),
{
    let ext = match extension_of(model_path) {
        Some(e) => lower_chars(e.as_str()),
        None => lower_chars(""),
    };
    proof {
        reveal_strlit("");
        assert(""@ =~= Seq::<char>::empty());
    }
    if eq_str(&ext, "gguf") {
        MoeSource::Gguf
    } else if eq_str(&ext, "onnx") {
        MoeSource::Onnx
    } else {
        MoeSource::Unsupported
    }
}


/// Mixture-of-experts facts of a model file by its format: a `.gguf` file from its
/// header (`gguf_metadata` and `gguf_tensors`), a `.onnx` file from the text of the
/// `config.json` found for it (dense when there is none), any other file dense.
pub fn detect_moe(
    model_path: &str,
    gguf_metadata: &Vec<(String, String)>,
    gguf_tensors: &Vec<(String, Vec<u64>)>,
    onnx_config: Option<&str>,
) -> (r: MoeModelInfo)
    ensures
        match moe_source_spec(model_path@) {
            MoeSource::Gguf => gguf_moe_matches(r, gguf_metadata@, gguf_tensors@),
            MoeSource::Onnx => match onnx_config {
                Some(t) => onnx_moe_matches(
                    r,
                    crate::json::u64_under(t@, EXPERT_COUNT_KEYS@),
                    crate::json::u64_under(t@, ACTIVE_EXPERT_KEYS@),
                    crate::json::u64_under(t@, LAYER_COUNT_KEYS@),
                ),
                None => is_dense_info(r),
            },
            MoeSource::Unsupported => is_dense_info(r),
        },
{
    match moe_source(model_path) {
        MoeSource::Gguf => GgufMoeDetector::detect(gguf_metadata, gguf_tensors),
        MoeSource::Onnx => match onnx_config {
            Some(t) => moe_from_config_text(t),
            None => MoeModelInfo::default(),
        },
        MoeSource::Unsupported => MoeModelInfo::default(),
    }
}

} // verus!
