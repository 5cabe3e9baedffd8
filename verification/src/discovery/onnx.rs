//! A scanner over the protobuf encoding of ONNX models: it counts the elements of
//! the graph's initializer tensors and reads the sequence dimension of the first
//! graph input, without decoding anything else.
//!
//! Each scan is specified as a walk over the fields of one message: read a tag
//! varint, act on the fields of interest, skip every other field by its wire type.
use vstd::prelude::*;
use crate::text::{decimal, decimal_string, opt_view};

verus! {

// ───────────────────────── wire format ─────────────────────────

/// Varint starting at `i`, its first byte worth `shift` bits: value and end position.
/// At most ten bytes are read; the eleventh continuation byte makes it fail.
pub open spec fn varint_at(buf: Seq<u8>, i: int, shift: u64) -> Option<(u64, int)>
    decreases buf.len() - i,
{
    if i < 0 || i >= buf.len() {
        None
    } else {
        let part = ((buf[i] & 0x7f) as u64) << shift;
        if buf[i] & 0x80 == 0 {
            Some((part, i + 1))
        } else if shift + 7 >= 64 {
            None
        } else {
            match varint_at(buf, i + 1, (shift + 7) as u64) {
                Some((v, e)) => Some((part | v, e)),
                None => None,
            }
        }
    }
}

/// The varint at `i`: its value and the position after it.
pub open spec fn varint(buf: Seq<u8>, i: int) -> Option<(u64, int)> {
    varint_at(buf, i, 0)
}

/// Position after the varint bytes starting at `i` (the end of `buf` if it runs off).
pub open spec fn varint_skip(buf: Seq<u8>, i: int) -> int
    decreases buf.len() - i,
{
    if i < 0 || i >= buf.len() {
        buf.len() as int
    } else if buf[i] & 0x80 != 0 {
        varint_skip(buf, i + 1)
    } else {
        i + 1
    }
}

/// `min(a, b)`.
pub open spec fn min_int(a: int, b: int) -> int {
    if a < b { a } else { b }
}

/// End of a length-delimited payload of `l` bytes at `n`, cut at the end of `buf`.
pub open spec fn payload_end(buf: Seq<u8>, n: int, l: u64) -> int {
    min_int(n + l, buf.len() as int)
}

/// Position after a field payload of wire type `w` starting at `i`.
pub open spec fn skip_field(buf: Seq<u8>, i: int, w: u64) -> int {
    if w == 0 {
        varint_skip(buf, i)
    } else if w == 1 {
        min_int(i + 8, buf.len() as int)
    } else if w == 2 {
        match varint(buf, i) {
            Some((l, n)) => payload_end(buf, n, l),
            None => buf.len() as int,
        }
    } else if w == 5 {
        min_int(i + 4, buf.len() as int)
    } else {
        buf.len() as int
    }
}

pub proof fn lemma_varint_at_bounds(buf: Seq<u8>, i: int, shift: u64)
    ensures
        varint_at(buf, i, shift) matches Some((_, e)) ==> i < e <= buf.len(),
    decreases buf.len() - i,
{
    if 0 <= i < buf.len() && buf[i] & 0x80 != 0 && shift + 7 < 64 {
        lemma_varint_at_bounds(buf, i + 1, (shift + 7) as u64);
    }
}

pub proof fn lemma_varint_bounds(buf: Seq<u8>, i: int)
    ensures
        varint(buf, i) matches Some((_, e)) ==> i < e <= buf.len(),
{
    lemma_varint_at_bounds(buf, i, 0);
}

pub proof fn lemma_varint_skip_bounds(buf: Seq<u8>, i: int)
    requires
        0 <= i <= buf.len(),
    ensures
        i <= varint_skip(buf, i) <= buf.len(),
        i < buf.len() ==> i < varint_skip(buf, i),
    decreases buf.len() - i,
{
    if i < buf.len() && buf[i] & 0x80 != 0 {
        lemma_varint_skip_bounds(buf, i + 1);
    }
}

pub proof fn lemma_skip_field_bounds(buf: Seq<u8>, i: int, w: u64)
    requires
        0 <= i <= buf.len(),
    ensures
        i <= skip_field(buf, i, w) <= buf.len(),
{
    lemma_varint_skip_bounds(buf, i);
    lemma_varint_bounds(buf, i);
}

// ───────────────────────── message scans ─────────────────────────

/// Values of the varints packed between `i` and `end`.
pub open spec fn packed_from(buf: Seq<u8>, i: int, end: int) -> Seq<u64>
    decreases buf.len() - i,
{
    if i < 0 || i >= end || i >= buf.len() {
        Seq::empty()
    } else {
        match varint(buf, i) {
            Some((d, n)) => {
                proof {
                    lemma_varint_bounds(buf, i);
                }
                seq![d] + packed_from(buf, n, end)
            },
            None => Seq::empty(),
        }
    }
}

/// The `dims` (field 7, plain or packed) of a `TensorProto`, from position `idx` on.
pub open spec fn tensor_dims_from(buf: Seq<u8>, idx: int) -> Seq<u64>
    decreases buf.len() - idx,
{
    if idx < 0 || idx >= buf.len() {
        Seq::empty()
    } else {
        match varint(buf, idx) {
            None => Seq::empty(),
            Some((tag, i1)) => {
                proof {
                    lemma_varint_bounds(buf, idx);
                    lemma_varint_bounds(buf, i1);
                    lemma_skip_field_bounds(buf, i1, tag & 0x07);
                }
                if tag >> 3 == 7 && tag & 0x07 == 0 && varint(buf, i1) is Some {
                    let (d, n) = varint(buf, i1)->0;
                    seq![d] + tensor_dims_from(buf, n)
                } else if tag >> 3 == 7 && tag & 0x07 == 2 && varint(buf, i1) is Some {
                    let (l, n) = varint(buf, i1)->0;
                    let end = payload_end(buf, n, l);
                    packed_from(buf, n, end) + tensor_dims_from(buf, end)
                } else {
                    tensor_dims_from(buf, skip_field(buf, i1, tag & 0x07))
                }
            },
        }
    }
}

/// Product of `s` modulo 2^64.
pub open spec fn wrapping_product(s: Seq<u64>) -> u64
    decreases s.len(),
{
    if s.len() == 0 {
        1
    } else {
        vstd::wrapping::u64_specs::wrapping_mul(wrapping_product(s.drop_last()), s.last())
    }
}

/// Element count of a `TensorProto`: the product of its dims (modulo 2^64), 0 without dims.
pub open spec fn tensor_elements(buf: Seq<u8>) -> u64 {
    let d = tensor_dims_from(buf, 0);
    if d.len() == 0 {
        0
    } else {
        wrapping_product(d)
    }
}

/// Inside one `Dimension` (between `d` and `d_end`): the first `dim_value` (field 1,
/// varint) between 2 and 32768.
pub open spec fn dim_value_from(buf: Seq<u8>, d: int, d_end: int) -> Option<u64>
    decreases buf.len() - d,
{
    if d < 0 || d >= d_end || d >= buf.len() {
        None
    } else {
        match varint(buf, d) {
            None => None,
            Some((t, dn)) => {
                proof {
                    lemma_varint_bounds(buf, d);
                    lemma_skip_field_bounds(buf, dn, t & 0x07);
                }
                let hit = if t >> 3 == 1 && t & 0x07 == 0 {
                    match varint(buf, dn) {
                        Some((v, _)) => if 1 < v <= 32768 { Some(v) } else { None },
                        None => None,
                    }
                } else {
                    None
                };
                if hit is Some {
                    hit
                } else {
                    dim_value_from(buf, skip_field(buf, dn, t & 0x07), d_end)
                }
            },
        }
    }
}

/// Inside one `TensorShapeProto` payload (between `s` and `end`): the first
/// qualifying dimension value over its `dim` entries (field 1).
pub open spec fn shape_dims_from(buf: Seq<u8>, s: int, end: int) -> Option<u64>
    decreases buf.len() - s,
{
    if s < 0 || s >= end || s >= buf.len() {
        None
    } else {
        match varint(buf, s) {
            None => None,
            Some((t, ns)) => {
                proof {
                    lemma_varint_bounds(buf, s);
                    lemma_skip_field_bounds(buf, ns, t & 0x07);
                }
                let found = if t >> 3 == 1 && t & 0x07 == 2 {
                    match varint(buf, ns) {
                        Some((dl, di)) => dim_value_from(buf, di, min_int(di + dl, end)),
                        None => None,
                    }
                } else {
                    None
                };
                if found is Some {
                    found
                } else {
                    shape_dims_from(buf, skip_field(buf, ns, t & 0x07), end)
                }
            },
        }
    }
}

/// Over the fields of a message from `idx` on: the first qualifying dimension of
/// any field-1 payload taken as a shape.
pub open spec fn shape_from(buf: Seq<u8>, idx: int) -> Option<u64>
    decreases buf.len() - idx,
{
    if idx < 0 || idx >= buf.len() {
        None
    } else {
        match varint(buf, idx) {
            None => None,
            Some((tag, i1)) => {
                proof {
                    lemma_varint_bounds(buf, idx);
                    lemma_skip_field_bounds(buf, i1, tag & 0x07);
                }
                let found = if tag >> 3 == 1 && tag & 0x07 == 2 {
                    match varint(buf, i1) {
                        Some((l, n)) => shape_dims_from(buf, n, payload_end(buf, n, l)),
                        None => None,
                    }
                } else {
                    None
                };
                if found is Some {
                    found
                } else {
                    shape_from(buf, skip_field(buf, i1, tag & 0x07))
                }
            },
        }
    }
}

/// The first length-delimited field number `f` from `idx` on: the bounds of its payload.
pub open spec fn first_field_from(buf: Seq<u8>, idx: int, f: u64) -> Option<(int, int)>
    decreases buf.len() - idx,
{
    if idx < 0 || idx >= buf.len() {
        None
    } else {
        match varint(buf, idx) {
            None => None,
            Some((tag, i1)) => {
                proof {
                    lemma_varint_bounds(buf, idx);
                    lemma_skip_field_bounds(buf, i1, tag & 0x07);
                }
                if tag >> 3 == f && tag & 0x07 == 2 && varint(buf, i1) is Some {
                    let (l, n) = varint(buf, i1)->0;
                    Some((n, payload_end(buf, n, l)))
                } else {
                    first_field_from(buf, skip_field(buf, i1, tag & 0x07), f)
                }
            },
        }
    }
}

/// Sequence dimension of a `TypeProto`: its `tensor_type` (field 1) read as a shape.
pub open spec fn type_dim(buf: Seq<u8>) -> Option<u64> {
    match first_field_from(buf, 0, 1) {
        Some((n, e)) => shape_from(buf.subrange(n, e), 0),
        None => None,
    }
}

/// Sequence dimension of a `ValueInfoProto`: its `type` (field 2).
pub open spec fn input_dim(buf: Seq<u8>) -> Option<u64> {
    match first_field_from(buf, 0, 2) {
        Some((n, e)) => type_dim(buf.subrange(n, e)),
        None => None,
    }
}

/// The context label for an input dimension, if it gives one.
pub open spec fn ctx_label(d: Option<u64>) -> Option<Seq<char>> {
    match d {
        Some(v) => if v == 77 {
            Some("77 Tokens (224x224 PX)"@)
        } else if v > 0 {
            Some(decimal(v as nat))
        } else {
            None
        },
        None => None,
    }
}

/// Over a `GraphProto` from `idx` on, with the context label found so far: the sum
/// (modulo 2^64) of its initializers' element counts (field 5), and the context label,
/// taken from the first input (field 11) read while none was known.
pub open spec fn graph_from(buf: Seq<u8>, idx: int, ctx: Option<Seq<char>>) -> (u64, Option<Seq<char>>)
    decreases buf.len() - idx,
{
    if idx < 0 || idx >= buf.len() {
        (0, ctx)
    } else {
        match varint(buf, idx) {
            None => (0, ctx),
            Some((tag, i1)) => {
                proof {
                    lemma_varint_bounds(buf, idx);
                    lemma_varint_bounds(buf, i1);
                    lemma_skip_field_bounds(buf, i1, tag & 0x07);
                }
                if tag >> 3 == 5 && tag & 0x07 == 2 && varint(buf, i1) is Some {
                    let (l, n) = varint(buf, i1)->0;
                    let end = payload_end(buf, n, l);
                    let rest = graph_from(buf, end, ctx);
                    (
                        vstd::wrapping::u64_specs::wrapping_add(
                            tensor_elements(buf.subrange(n, end)),
                            rest.0,
                        ),
                        rest.1,
                    )
                } else if tag >> 3 == 11 && tag & 0x07 == 2 && ctx is None && varint(buf, i1) is Some {
                    let (l, n) = varint(buf, i1)->0;
                    let end = payload_end(buf, n, l);
                    graph_from(buf, end, ctx_label(input_dim(buf.subrange(n, end))))
                } else {
                    graph_from(buf, skip_field(buf, i1, tag & 0x07), ctx)
                }
            },
        }
    }
}

/// Over a `ModelProto` from `idx` on: the initializer element count of every graph
/// (field 2), summed modulo 2^64, and the context label.
pub open spec fn model_from(buf: Seq<u8>, idx: int, ctx: Option<Seq<char>>) -> (u64, Option<Seq<char>>)
    decreases buf.len() - idx,
{
    if idx < 0 || idx >= buf.len() {
        (0, ctx)
    } else {
        match varint(buf, idx) {
            None => (0, ctx),
            Some((tag, i1)) => {
                proof {
                    lemma_varint_bounds(buf, idx);
                    lemma_varint_bounds(buf, i1);
                    lemma_skip_field_bounds(buf, i1, tag & 0x07);
                }
                if tag >> 3 == 2 && tag & 0x07 == 2 && varint(buf, i1) is Some {
                    let (l, n) = varint(buf, i1)->0;
                    let end = payload_end(buf, n, l);
                    let g = graph_from(buf.subrange(n, end), 0, ctx);
                    let rest = model_from(buf, end, g.1);
                    (vstd::wrapping::u64_specs::wrapping_add(g.0, rest.0), rest.1)
                } else {
                    model_from(buf, skip_field(buf, i1, tag & 0x07), ctx)
                }
            },
        }
    }
}

/// Over several model files in turn: the summed element count and the context label.
pub open spec fn models_from(bufs: Seq<Seq<u8>>, k: int, ctx: Option<Seq<char>>) -> (u64, Option<Seq<char>>)
    decreases bufs.len() - k,
{
    if k < 0 || k >= bufs.len() {
        (0, ctx)
    } else {
        let m = model_from(bufs[k], 0, ctx);
        let rest = models_from(bufs, k + 1, m.1);
        (vstd::wrapping::u64_specs::wrapping_add(m.0, rest.0), rest.1)
    }
}


/// `r` with `val` or-ed into its value.
pub open spec fn or_into(val: u64, r: Option<(u64, int)>) -> Option<(u64, int)> {
    match r {
        Some((v, e)) => Some((val | v, e)),
        None => None,
    }
}

/// Scanner over ONNX protobuf files.
pub struct ONNXProber;

impl ONNXProber {
    /// The varint at `idx`: its value and the position after it.
    fn read_varint(buf: &[u8], idx: usize) -> (r: Option<(u64, usize)>)
        ensures
            match r {
                Some((v, e)) => varint(buf@, idx as int) == Some((v, e as int)),
                None => varint(buf@, idx as int) is None,
            },
    {
        if idx >= buf.len() {
            return None;
        }
        let mut i = idx;
        let mut val: u64 = 0;
        let mut shift: u64 = 0;
        proof {
            let r = varint_at(buf@, idx as int, 0);
            if let Some((v, _)) = r {
                assert(0u64 | v == v) by (bit_vector);
            }
        }
        while i < buf.len()
            invariant
                idx <= i <= buf@.len(),
                shift < 64,
                varint(buf@, idx as int) == or_into(val, varint_at(buf@, i as int, shift)),
            decreases buf.len() - i,
        {
            let byte = buf[i];
            let part = ((byte & 0x7f) as u64) << shift;
            proof {
                let rest = varint_at(buf@, i + 1, (shift + 7) as u64);
                if let Some((v, _)) = rest {
                    assert((val | part) | v == val | (part | v)) by (bit_vector);
                }
            }
            i = i + 1;
            val = val | part;
            if byte & 0x80 == 0 {
                return Some((val, i));
            }
            if shift + 7 >= 64 {
                return None;
            }
            shift = shift + 7;
        }
        None
    }

    /// Position after a field payload of wire type `wire_type` at `idx`.
    fn skip_field(buf: &[u8], idx: usize, wire_type: u64) -> (r: usize)
        requires
            idx <= buf@.len(),
        ensures
            r == skip_field(buf@, idx as int, wire_type),
            idx <= r <= buf@.len(),
    {
        proof {
            lemma_skip_field_bounds(buf@, idx as int, wire_type);
        }
        if wire_type == 0 {
            let mut i = idx;
            while i < buf.len() && (buf[i] & 0x80) != 0
                invariant
                    idx <= i <= buf@.len(),
                    varint_skip(buf@, idx as int) == varint_skip(buf@, i as int),
                decreases buf.len() - i,
            {
                i = i + 1;
            }
            if i < buf.len() {
                i + 1
            } else {
                buf.len()
            }
        } else if wire_type == 1 {
            if buf.len() - idx <= 8 {
                buf.len()
            } else {
                idx + 8
            }
        } else if wire_type == 2 {
            match Self::read_varint(buf, idx) {
                Some((l, n)) => {
                    proof {
                        lemma_varint_bounds(buf@, idx as int);
                    }
                    Self::clamp_end(buf, n, l)
                },
                None => buf.len(),
            }
        } else if wire_type == 5 {
            if buf.len() - idx <= 4 {
                buf.len()
            } else {
                idx + 4
            }
        } else {
            buf.len()
        }
    }

    /// `min(n + l, buf.len())`.
    fn clamp_end(buf: &[u8], n: usize, l: u64) -> (r: usize)
        requires
            n <= buf@.len(),
        ensures
            r == payload_end(buf@, n as int, l),
            n <= r <= buf@.len(),
    {
        let room = buf.len() - n;
        if l < room as u64 {
            n + l as usize
        } else {
            buf.len()
        }
    }

    /// Element count of a `TensorProto` payload: the product of its dims (modulo 2^64),
    /// 0 when it has none.
    fn parse_tensor_proto(buf: &[u8]) -> (r: u64)
        ensures
            r == tensor_elements(buf@),
    {
        let ghost all = tensor_dims_from(buf@, 0);
        let mut idx: usize = 0;
        let mut dims: Vec<u64> = Vec::new();
        loop
            invariant
                idx <= buf@.len(),
                all == tensor_dims_from(buf@, 0),
                all == dims@ + tensor_dims_from(buf@, idx as int),
            ensures
                all == dims@,
            decreases buf.len() - idx,
        {
            if idx >= buf.len() {
                assert(dims@ + tensor_dims_from(buf@, idx as int) =~= dims@);
                break;
            }
            let (tag, i1) = match Self::read_varint(buf, idx) {
                Some(t) => t,
                None => {
                    assert(dims@ + tensor_dims_from(buf@, idx as int) =~= dims@);
                    break;
                },
            };
            proof {
                lemma_varint_bounds(buf@, idx as int);
                lemma_varint_bounds(buf@, i1 as int);
            }
            let field = tag >> 3;
            let wire = tag & 0x07;
            if field == 7 && wire == 0 {
                if let Some((d, n)) = Self::read_varint(buf, i1) {
                    proof {
                        assert(dims@.push(d) + tensor_dims_from(buf@, n as int) =~= dims@ + (seq![d]
                            + tensor_dims_from(buf@, n as int)));
                    }
                    dims.push(d);
                    idx = n;
                    continue;
                }
            } else if field == 7 && wire == 2 {
                if let Some((l, n)) = Self::read_varint(buf, i1) {
                    let end = Self::clamp_end(buf, n, l);
                    let ghost before = dims@;
                    let mut sub = n;
                    loop
                        invariant
                            n <= sub <= buf@.len(),
                            end <= buf@.len(),
                            before + packed_from(buf@, n as int, end as int) == dims@ + packed_from(
                                buf@,
                                sub as int,
                                end as int,
                            ),
                        ensures
                            before + packed_from(buf@, n as int, end as int) == dims@,
                        decreases buf.len() - sub,
                    {
                        if sub >= end {
                            assert(dims@ + packed_from(buf@, sub as int, end as int) =~= dims@);
                            break;
                        }
                        match Self::read_varint(buf, sub) {
                            Some((d, next)) => {
                                proof {
                                    lemma_varint_bounds(buf@, sub as int);
                                    assert(dims@.push(d) + packed_from(buf@, next as int, end as int)
                                        =~= dims@ + (seq![d] + packed_from(buf@, next as int, end as int)));
                                }
                                dims.push(d);
                                sub = next;
                            },
                            None => {
                                assert(dims@ + packed_from(buf@, sub as int, end as int) =~= dims@);
                                break;
                            },
                        }
                    }
                    proof {
                        assert(all == before + (packed_from(buf@, n as int, end as int)
                            + tensor_dims_from(buf@, end as int)));
                        assert(before + (packed_from(buf@, n as int, end as int) + tensor_dims_from(
                            buf@,
                            end as int,
                        )) =~= (before + packed_from(buf@, n as int, end as int)) + tensor_dims_from(
                            buf@,
                            end as int,
                        ));
                    }
                    idx = end;
                    continue;
                }
            }
            idx = Self::skip_field(buf, i1, wire);
        }
        if dims.len() == 0 {
            0
        } else {
            let mut p: u64 = 1;
            let mut k: usize = 0;
            while k < dims.len()
                invariant
                    k <= dims@.len(),
                    p == wrapping_product(dims@.subrange(0, k as int)),
                decreases dims.len() - k,
            {
                proof {
                    assert(dims@.subrange(0, k + 1).drop_last() =~= dims@.subrange(0, k as int));
                }
                p = p.wrapping_mul(dims[k]);
                k = k + 1;
            }
            assert(dims@.subrange(0, dims@.len() as int) =~= dims@);
            p
        }
    }
}


/// Views of several byte buffers.
pub open spec fn buffer_views(v: Seq<Vec<u8>>) -> Seq<Seq<u8>> {
    Seq::new(v.len(), |i: int| v[i]@)
}

pub proof fn lemma_wrapping_add_assoc(a: u64, b: u64, c: u64)
    ensures
        vstd::wrapping::u64_specs::wrapping_add(a, vstd::wrapping::u64_specs::wrapping_add(b, c))
            == vstd::wrapping::u64_specs::wrapping_add(vstd::wrapping::u64_specs::wrapping_add(a, b), c),
        vstd::wrapping::u64_specs::wrapping_add(a, 0) == a,
{
}

impl ONNXProber {
    /// Inside one `Dimension` payload (`d` to `d_end`): its first `dim_value` between 2 and 32768.
    fn scan_dim_value(buf: &[u8], d: usize, d_end: usize) -> (r: Option<u64>)
        requires
            d <= buf@.len(),
            d_end <= buf@.len(),
        ensures
            r == dim_value_from(buf@, d as int, d_end as int),
    {
        let mut i = d;
        while i < d_end
            invariant
                i <= buf@.len(),
                d_end <= buf@.len(),
                dim_value_from(buf@, d as int, d_end as int) == dim_value_from(buf@, i as int, d_end as int),
            decreases buf.len() - i,
        {
            let (t, dn) = match Self::read_varint(buf, i) {
                Some(x) => x,
                None => return None,
            };
            proof {
                lemma_varint_bounds(buf@, i as int);
            }
            if (t >> 3) == 1 && (t & 0x07) == 0 {
                if let Some((val, _)) = Self::read_varint(buf, dn) {
                    if val > 1 && val <= 32768 {
                        return Some(val);
                    }
                }
            }
            i = Self::skip_field(buf, dn, t & 0x07);
        }
        None
    }

    /// Inside one `TensorShapeProto` payload (`s` to `end`): the first qualifying
    /// dimension value over its `dim` entries.
    fn scan_shape_dims(buf: &[u8], s: usize, end: usize) -> (r: Option<u64>)
        requires
            s <= buf@.len(),
            end <= buf@.len(),
        ensures
            r == shape_dims_from(buf@, s as int, end as int),
    {
        let mut i = s;
        while i < end
            invariant
                i <= buf@.len(),
                end <= buf@.len(),
                shape_dims_from(buf@, s as int, end as int) == shape_dims_from(buf@, i as int, end as int),
            decreases buf.len() - i,
        {
            let (t, ns) = match Self::read_varint(buf, i) {
                Some(x) => x,
                None => return None,
            };
            proof {
                lemma_varint_bounds(buf@, i as int);
            }
            if (t >> 3) == 1 && (t & 0x07) == 2 {
                if let Some((dl, di)) = Self::read_varint(buf, ns) {
                    proof {
                        lemma_varint_bounds(buf@, ns as int);
                    }
                    let room = end - if di < end { di } else { end };
                    let d_end = if di >= end {
                        end
                    } else if dl < room as u64 {
                        di + dl as usize
                    } else {
                        end
                    };
                    assert(d_end == min_int(di + dl, end as int));
                    let found = Self::scan_dim_value(buf, di, d_end);
                    if found.is_some() {
                        return found;
                    }
                }
            }
            i = Self::skip_field(buf, ns, t & 0x07);
        }
        None
    }

    /// Sequence dimension of a `TensorShapeProto`: the first `dim_value` between 2 and
    /// 32768 over its dimensions.
    fn parse_tensor_shape_proto(buf: &[u8]) -> (r: Option<u64>)
        ensures
            r == shape_from(buf@, 0),
    {
        let mut idx: usize = 0;
        while idx < buf.len()
            invariant
                idx <= buf@.len(),
                shape_from(buf@, 0) == shape_from(buf@, idx as int),
            decreases buf.len() - idx,
        {
            let (tag, i1) = match Self::read_varint(buf, idx) {
                Some(x) => x,
                None => return None,
            };
            proof {
                lemma_varint_bounds(buf@, idx as int);
            }
            if (tag >> 3) == 1 && (tag & 0x07) == 2 {
                if let Some((l, n)) = Self::read_varint(buf, i1) {
                    proof {
                        lemma_varint_bounds(buf@, i1 as int);
                    }
                    let end = Self::clamp_end(buf, n, l);
                    let found = Self::scan_shape_dims(buf, n, end);
                    if found.is_some() {
                        return found;
                    }
                }
            }
            idx = Self::skip_field(buf, i1, tag & 0x07);
        }
        None
    }

    /// Bounds of the payload of the first length-delimited field number `f`.
    fn first_field(buf: &[u8], f: u64) -> (r: Option<(usize, usize)>)
        ensures
            match r {
                Some((n, e)) => first_field_from(buf@, 0, f) == Some((n as int, e as int)) && n <= e
                    <= buf@.len(),
                None => first_field_from(buf@, 0, f) is None,
            },
    {
        let mut idx: usize = 0;
        while idx < buf.len()
            invariant
                idx <= buf@.len(),
                first_field_from(buf@, 0, f) == first_field_from(buf@, idx as int, f),
            decreases buf.len() - idx,
        {
            let (tag, i1) = match Self::read_varint(buf, idx) {
                Some(x) => x,
                None => return None,
            };
            proof {
                lemma_varint_bounds(buf@, idx as int);
            }
            if (tag >> 3) == f && (tag & 0x07) == 2 {
                if let Some((l, n)) = Self::read_varint(buf, i1) {
                    proof {
                        lemma_varint_bounds(buf@, i1 as int);
                    }
                    let end = Self::clamp_end(buf, n, l);
                    return Some((n, end));
                }
            }
            idx = Self::skip_field(buf, i1, tag & 0x07);
        }
        None
    }

    /// Sequence dimension of a `TypeProto`.
    fn parse_type_proto(buf: &[u8]) -> (r: Option<u64>)
        ensures
            r == type_dim(buf@),
    {
        match Self::first_field(buf, 1) {
            Some((n, e)) => Self::parse_tensor_shape_proto(&buf[n..e]),
            None => None,
        }
    }

    /// Sequence dimension of a `ValueInfoProto`.
    fn parse_input_value_info(buf: &[u8]) -> (r: Option<u64>)
        ensures
            r == input_dim(buf@),
    {
        match Self::first_field(buf, 2) {
            Some((n, e)) => Self::parse_type_proto(&buf[n..e]),
            None => None,
        }
    }

    /// The context label for an input dimension.
    fn context_label(d: Option<u64>) -> (r: Option<String>)
        ensures
            opt_view(r) == ctx_label(d),
    {
        match d {
            Some(v) => if v == 77 {
                Some("77 Tokens (224x224 PX)".to_owned())
            } else if v > 0 {
                Some(decimal_string(v))
            } else {
                None
            },
            None => None,
        }
    }

    /// Initializer element count of a `GraphProto` (modulo 2^64); sets `ctx_window` from
    /// the first graph input while it is unset.
    fn parse_graph_proto(buf: &[u8], ctx_window: &mut Option<String>) -> (r: u64)
        ensures
            (r, opt_view(*final(ctx_window))) == graph_from(buf@, 0, opt_view(*old(ctx_window))),
    {
        let ghost goal = graph_from(buf@, 0, opt_view(*old(ctx_window)));
        let mut idx: usize = 0;
        let mut total: u64 = 0;
        proof {
            lemma_wrapping_add_assoc(0, 0, graph_from(buf@, 0, opt_view(*old(ctx_window))).0);
        }
        loop
            invariant
                idx <= buf@.len(),
                goal == graph_from(buf@, 0, opt_view(*old(ctx_window))),
                goal.0 == vstd::wrapping::u64_specs::wrapping_add(
                    total,
                    graph_from(buf@, idx as int, opt_view(*ctx_window)).0,
                ),
                goal.1 == graph_from(buf@, idx as int, opt_view(*ctx_window)).1,
            ensures
                goal == (total, opt_view(*ctx_window)),
            decreases buf.len() - idx,
        {
            if idx >= buf.len() {
                proof {
                    lemma_wrapping_add_assoc(total, 0, 0);
                }
                break;
            }
            let (tag, i1) = match Self::read_varint(buf, idx) {
                Some(x) => x,
                None => {
                    proof {
                        lemma_wrapping_add_assoc(total, 0, 0);
                    }
                    break;
                },
            };
            proof {
                lemma_varint_bounds(buf@, idx as int);
            }
            let field = tag >> 3;
            let wire = tag & 0x07;
            if field == 5 && wire == 2 {
                if let Some((l, n)) = Self::read_varint(buf, i1) {
                    proof {
                        lemma_varint_bounds(buf@, i1 as int);
                    }
                    let end = Self::clamp_end(buf, n, l);
                    let t = Self::parse_tensor_proto(&buf[n..end]);
                    proof {
                        lemma_wrapping_add_assoc(
                            total,
                            t,
                            graph_from(buf@, end as int, opt_view(*ctx_window)).0,
                        );
                    }
                    total = total.wrapping_add(t);
                    idx = end;
                    continue;
                }
            } else if field == 11 && wire == 2 && ctx_window.is_none() {
                if let Some((l, n)) = Self::read_varint(buf, i1) {
                    proof {
                        lemma_varint_bounds(buf@, i1 as int);
                    }
                    let end = Self::clamp_end(buf, n, l);
                    let d = Self::parse_input_value_info(&buf[n..end]);
                    *ctx_window = Self::context_label(d);
                    idx = end;
                    continue;
                }
            }
            idx = Self::skip_field(buf, i1, wire);
        }
        total
    }

    /// Initializer element count of every graph of a `ModelProto` (modulo 2^64); sets
    /// `ctx_window` from the first graph input read while it is unset.
    pub fn parse_protobuf_initializers(buf: &[u8], ctx_window: &mut Option<String>) -> (r: u64)
        ensures
            (r, opt_view(*final(ctx_window))) == model_from(buf@, 0, opt_view(*old(ctx_window))),
    {
        let ghost goal = model_from(buf@, 0, opt_view(*old(ctx_window)));
        let mut idx: usize = 0;
        let mut total: u64 = 0;
        proof {
            lemma_wrapping_add_assoc(0, 0, goal.0);
        }
        loop
            invariant
                idx <= buf@.len(),
                goal.0 == vstd::wrapping::u64_specs::wrapping_add(
                    total,
                    model_from(buf@, idx as int, opt_view(*ctx_window)).0,
                ),
                goal.1 == model_from(buf@, idx as int, opt_view(*ctx_window)).1,
            ensures
                goal == (total, opt_view(*ctx_window)),
            decreases buf.len() - idx,
        {
            if idx >= buf.len() {
                proof {
                    lemma_wrapping_add_assoc(total, 0, 0);
                }
                break;
            }
            let (tag, i1) = match Self::read_varint(buf, idx) {
                Some(x) => x,
                None => {
                    proof {
                        lemma_wrapping_add_assoc(total, 0, 0);
                    }
                    break;
                },
            };
            proof {
                lemma_varint_bounds(buf@, idx as int);
            }
            if (tag >> 3) == 2 && (tag & 0x07) == 2 {
                if let Some((l, n)) = Self::read_varint(buf, i1) {
                    proof {
                        lemma_varint_bounds(buf@, i1 as int);
                    }
                    let end = Self::clamp_end(buf, n, l);
                    let ghost before = opt_view(*ctx_window);
                    let g = Self::parse_graph_proto(&buf[n..end], ctx_window);
                    proof {
                        lemma_wrapping_add_assoc(
                            total,
                            g,
                            model_from(buf@, end as int, opt_view(*ctx_window)).0,
                        );
                    }
                    total = total.wrapping_add(g);
                    idx = end;
                    continue;
                }
            }
            idx = Self::skip_field(buf, i1, tag & 0x07);
        }
        total
    }

    /// Element count summed over several model files (modulo 2^64) and the context label
    /// read from the first graph input that gives one.
    pub fn probe_buffers(buffers: &Vec<Vec<u8>>) -> (r: (u64, Option<String>))
        ensures
            (r.0, opt_view(r.1)) == models_from(buffer_views(buffers@), 0, None),
    {
        let ghost bs = buffer_views(buffers@);
        let ghost goal = models_from(bs, 0, None);
        let mut ctx: Option<String> = None;
        let mut total: u64 = 0;
        let mut k: usize = 0;
        proof {
            lemma_wrapping_add_assoc(0, 0, goal.0);
        }
        while k < buffers.len()
            invariant
                k <= buffers@.len(),
                bs == buffer_views(buffers@),
                goal.0 == vstd::wrapping::u64_specs::wrapping_add(total, models_from(bs, k as int, opt_view(ctx)).0),
                goal.1 == models_from(bs, k as int, opt_view(ctx)).1,
            decreases buffers.len() - k,
        {
            assert(bs[k as int] == buffers@[k as int]@);
            let m = Self::parse_protobuf_initializers(buffers[k].as_slice(), &mut ctx);
            proof {
                lemma_wrapping_add_assoc(total, m, models_from(bs, k + 1, opt_view(ctx)).0);
            }
            total = total.wrapping_add(m);
            k = k + 1;
        }
        proof {
            lemma_wrapping_add_assoc(total, 0, 0);
        }
        (total, ctx)
    }
}

} // verus!
