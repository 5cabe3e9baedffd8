//! Standard base64 (RFC 4648 alphabet, `=` padding) for audio payloads.
//!
//! Decoding is lenient: white space is dropped, decoding stops at the first `=` that
//! starts a group or at a group whose first two characters are outside the alphabet,
//! and what was decoded until then is returned.
use vstd::prelude::*;
use vstd::utf8::encode_utf8;
use crate::text::{chars_of, is_ws, is_ws_exec, push_char, string_of};

verus! {

/// Alphabet byte of a sextet `v` (0 to 63).
pub open spec fn b64_byte(v: int) -> u8 {
    if v < 26 {
        (65 + v) as u8
    } else if v < 52 {
        (97 + v - 26) as u8
    } else if v < 62 {
        (48 + v - 52) as u8
    } else if v == 62 {
        43
    } else {
        47
    }
}

/// Sextet of an alphabet byte, 255 for any other byte.
pub open spec fn b64_value(b: u8) -> u8 {
    if 65 <= b <= 90 {
        (b - 65) as u8
    } else if 97 <= b <= 122 {
        (b - 71) as u8
    } else if 48 <= b <= 57 {
        (b + 4) as u8
    } else if b == 43 {
        62
    } else if b == 47 {
        63
    } else {
        255
    }
}

/// The four characters encoding one group of one to three bytes.
pub open spec fn encode_group(x: Seq<u8>) -> Seq<char> {
    let b0 = x[0] as u32;
    let b1 = if x.len() > 1 { x[1] as u32 } else { 0u32 };
    let b2 = if x.len() > 2 { x[2] as u32 } else { 0u32 };
    let t = (b0 << 16u32) | (b1 << 8u32) | b2;
    seq![
        b64_byte(((t >> 18u32) & 63u32) as int) as char,
        b64_byte(((t >> 12u32) & 63u32) as int) as char,
        if x.len() > 1 { b64_byte(((t >> 6u32) & 63u32) as int) as char } else { '=' },
        if x.len() > 2 { b64_byte((t & 63u32) as int) as char } else { '=' },
    ]
}

/// Base64 text of `x`, three bytes to four characters, the last group padded with `=`.
pub open spec fn base64_of(x: Seq<u8>) -> Seq<char>
    decreases x.len(),
{
    if x.len() == 0 {
        Seq::empty()
    } else if x.len() <= 3 {
        encode_group(x)
    } else {
        encode_group(x.take(3)) + base64_of(x.skip(3))
    }
}

/// Sextet of the `k`-th byte of a group, 0 when it is missing or `=`.
pub open spec fn sextet_at(b: Seq<u8>, k: int) -> u8 {
    if k < b.len() && b[k] != 61 { b64_value(b[k]) } else { 0 }
}

/// The bytes of the group at the front of `b`.
pub open spec fn decode_group(b: Seq<u8>) -> Seq<u8> {
    let t = ((sextet_at(b, 0) as u32) << 18u32) | ((sextet_at(b, 1) as u32) << 12u32) | ((sextet_at(b, 2) as u32) << 6u32) | (
    sextet_at(b, 3) as u32);
    seq![((t >> 16u32) & 255u32) as u8] + (if 2 < b.len() && b[2] != 61 {
        seq![((t >> 8u32) & 255u32) as u8]
    } else {
        Seq::empty()
    }) + (if 3 < b.len() && b[3] != 61 {
        seq![(t & 255u32) as u8]
    } else {
        Seq::empty()
    })
}

/// Decoded bytes of the text bytes `b`, group by group, until a group starts with
/// `=` or its first two characters fall outside the alphabet.
pub open spec fn decode_bytes(b: Seq<u8>) -> Seq<u8>
    decreases b.len(),
{
    if b.len() == 0 || b[0] == 61 || b64_value(b[0]) == 255 || sextet_at(b, 1) == 255 {
        Seq::empty()
    } else if b.len() <= 4 {
        decode_group(b)
    } else {
        decode_group(b) + decode_bytes(b.skip(4))
    }
}

/// `s` without its white space.
pub open spec fn without_ws(s: Seq<char>) -> Seq<char>
    decreases s.len(),
{
    if s.len() == 0 {
        s
    } else if is_ws(s.last()) {
        without_ws(s.drop_last())
    } else {
        without_ws(s.drop_last()).push(s.last())
    }
}

/// The bytes base64 text decodes to.
pub open spec fn base64_decoded(text: Seq<char>) -> Seq<u8> {
    decode_bytes(encode_utf8(without_ws(text)))
}

fn b64_byte_of(v: u32) -> (r: u8)
    requires
        v < 64,
    ensures
        r == b64_byte(v as int),
{
    if v < 26 {
        (65 + v) as u8
    } else if v < 52 {
        (97 + v - 26) as u8
    } else if v < 62 {
        (48 + v - 52) as u8
    } else if v == 62 {
        43
    } else {
        47
    }
}

fn b64_value_of(b: u8) -> (r: u8)
    ensures
        r == b64_value(b),
{
    if 65 <= b && b <= 90 {
        b - 65
    } else if 97 <= b && b <= 122 {
        b - 71
    } else if 48 <= b && b <= 57 {
        b + 4
    } else if b == 43 {
        62
    } else if b == 47 {
        63
    } else {
        255
    }
}

/// Base64 text of `bytes`.
pub fn base64_encode(bytes: &[u8]) -> (r: String)
    ensures
        r@ == base64_of(bytes@),
{
    let mut out: Vec<char> = Vec::new();
    let mut i: usize = 0;
    assert(bytes@.skip(0) =~= bytes@);
    assert(out@ + base64_of(bytes@.skip(0)) =~= base64_of(bytes@));
    while i < bytes.len()
        invariant
            i <= bytes@.len(),
            out@ + base64_of(bytes@.skip(i as int)) == base64_of(bytes@),
        decreases bytes.len() - i,
    {
        let n = bytes.len() - i;
        let b0 = bytes[i] as u32;
        let b1: u32 = if n > 1 { bytes[i + 1] as u32 } else { 0 };
        let b2: u32 = if n > 2 { bytes[i + 2] as u32 } else { 0 };
        let t = (b0 << 16u32) | (b1 << 8u32) | b2;
        let ghost rest = bytes@.skip(i as int);
        let ghost g = if rest.len() <= 3 { rest } else { rest.take(3) };
        assert((t >> 18u32) & 63u32 < 64) by (bit_vector);
        assert((t >> 12u32) & 63u32 < 64) by (bit_vector);
        assert((t >> 6u32) & 63u32 < 64) by (bit_vector);
        assert(t & 63u32 < 64) by (bit_vector);
        let c0 = b64_byte_of((t >> 18u32) & 63u32) as char;
        let c1 = b64_byte_of((t >> 12u32) & 63u32) as char;
        let c2 = if n > 1 { b64_byte_of((t >> 6u32) & 63u32) as char } else { '=' };
        let c3 = if n > 2 { b64_byte_of(t & 63u32) as char } else { '=' };
        let ghost before = out@;
        out.push(c0);
        out.push(c1);
        out.push(c2);
        out.push(c3);
        proof {
            assert(g[0] == bytes@[i as int]);
            if n > 1 {
                assert(g[1] == bytes@[i + 1]);
            }
            if n > 2 {
                assert(g[2] == bytes@[i + 2]);
            }
            assert(seq![c0, c1, c2, c3] =~= encode_group(g));
            assert(out@ =~= before + encode_group(g));
        }
        if n <= 3 {
            proof {
                assert(base64_of(rest) == encode_group(g));
                assert(bytes@.skip(bytes@.len() as int) =~= Seq::<u8>::empty());
                assert(out@ + base64_of(bytes@.skip(bytes@.len() as int)) =~= out@);
            }
            i = bytes.len();
        } else {
            proof {
                assert(rest.skip(3) =~= bytes@.skip(i + 3));
                assert(base64_of(rest) == encode_group(g) + base64_of(rest.skip(3)));
                assert(out@ + base64_of(bytes@.skip(i + 3)) =~= before + base64_of(rest));
            }
            i = i + 3;
        }
    }
    proof {
        assert(bytes@.skip(i as int) =~= Seq::<u8>::empty());
        assert(out@ + base64_of(bytes@.skip(i as int)) =~= out@);
    }
    string_of(&out)
}

fn without_ws_of(s: &str) -> (r: String)
    ensures
        r@ == without_ws(s@),
{
    let cs = chars_of(s);
    let mut out: Vec<char> = Vec::new();
    let mut i: usize = 0;
    while i < cs.len()
        invariant
            i <= cs@.len(),
            cs@ == s@,
            out@ == without_ws(cs@.take(i as int)),
        decreases cs.len() - i,
    {
        proof {
            assert(cs@.take(i + 1).drop_last() =~= cs@.take(i as int));
        }
        if !is_ws_exec(cs[i]) {
            out.push(cs[i]);
        }
        i = i + 1;
    }
    assert(cs@.take(cs@.len() as int) =~= cs@);
    string_of(&out)
}

/// Bytes of base64 text; white space is ignored and decoding stops at the first
/// `=` group or at a group that does not start with two alphabet characters.
pub fn base64_decode(input: &str) -> (r: Result<Vec<u8>, String>)
    ensures
        r matches Ok(v) && v@ == base64_decoded(input@),
{
    let clean = without_ws_of(input);
    let bytes = clean.as_str().as_bytes();
    proof {
        assert(bytes@ == encode_utf8(without_ws(input@)));
    }
    let mut buf: Vec<u8> = Vec::new();
    let mut i: usize = 0;
    assert(bytes@.skip(0) =~= bytes@);
    assert(buf@ + decode_bytes(bytes@.skip(0)) =~= decode_bytes(bytes@));
    loop
        invariant
            i <= bytes@.len(),
            buf@ + decode_bytes(bytes@.skip(i as int)) == decode_bytes(bytes@),
        ensures
            buf@ == decode_bytes(bytes@),
        decreases bytes.len() - i,
    {
        let ghost rest = bytes@.skip(i as int);
        if i >= bytes.len() {
            assert(rest =~= Seq::<u8>::empty());
            assert(buf@ + decode_bytes(rest) =~= buf@);
            break;
        }
        if bytes[i] == 61 {
            assert(buf@ + decode_bytes(rest) =~= buf@);
            break;
        }
        let n = bytes.len() - i;
        let b0 = b64_value_of(bytes[i]);
        let b1: u8 = if n > 1 && bytes[i + 1] != 61 { b64_value_of(bytes[i + 1]) } else { 0 };
        let b2: u8 = if n > 2 && bytes[i + 2] != 61 { b64_value_of(bytes[i + 2]) } else { 0 };
        let b3: u8 = if n > 3 && bytes[i + 3] != 61 { b64_value_of(bytes[i + 3]) } else { 0 };
        proof {
            assert(rest[0] == bytes@[i as int]);
            if n > 1 {
                assert(rest[1] == bytes@[i + 1]);
            }
            if n > 2 {
                assert(rest[2] == bytes@[i + 2]);
            }
            if n > 3 {
                assert(rest[3] == bytes@[i + 3]);
            }
            assert(b0 == sextet_at(rest, 0));
            assert(b1 == sextet_at(rest, 1));
            assert(b2 == sextet_at(rest, 2));
            assert(b3 == sextet_at(rest, 3));
        }
        if b0 == 255 || b1 == 255 {
            assert(buf@ + decode_bytes(rest) =~= buf@);
            break;
        }
        let t = ((b0 as u32) << 18u32) | ((b1 as u32) << 12u32) | ((b2 as u32) << 6u32) | (b3 as u32);
        let ghost before = buf@;
        buf.push(((t >> 16u32) & 255u32) as u8);
        if n > 2 && bytes[i + 2] != 61 {
            buf.push(((t >> 8u32) & 255u32) as u8);
        }
        if n > 3 && bytes[i + 3] != 61 {
            buf.push((t & 255u32) as u8);
        }
        proof {
            assert(buf@ =~= before + decode_group(rest));
        }
        if n <= 4 {
            proof {
                assert(bytes@.skip(bytes@.len() as int) =~= Seq::<u8>::empty());
                assert(buf@ + decode_bytes(bytes@.skip(bytes@.len() as int)) =~= buf@);
            }
            i = bytes.len();
        } else {
            proof {
                assert(rest.skip(4) =~= bytes@.skip(i + 4));
                assert(buf@ + decode_bytes(bytes@.skip(i + 4)) =~= before + decode_bytes(rest));
            }
            i = i + 4;
        }
    }
    Ok(buf)
}


// ───────────────────────── round trip ─────────────────────────

/// Bytes of ASCII characters.
pub open spec fn ascii_bytes(s: Seq<char>) -> Seq<u8> {
    Seq::new(s.len(), |i: int| s[i] as u8)
}

proof fn lemma_alphabet_byte(v: int)
    requires
        0 <= v < 64,
    ensures
        b64_value(b64_byte(v)) == v,
        b64_byte(v) != 61,
        b64_byte(v) < 128,
        (b64_byte(v) as char) as u8 == b64_byte(v),
        (b64_byte(v) as char) as u32 == b64_byte(v) as u32,
        '\0' <= (b64_byte(v) as char) <= '\u{7f}',
        !is_ws(b64_byte(v) as char),
{
}

proof fn lemma_group_bits(x0: u32, x1: u32, x2: u32)
    by (bit_vector)
    requires
        x0 < 256,
        x1 < 256,
        x2 < 256,
    ensures
        (((((((x0 << 16u32) | (x1 << 8u32) | x2) >> 18u32) & 63u32) << 18u32) | (((((x0 << 16u32) | (x1
            << 8u32) | x2) >> 12u32) & 63u32) << 12u32) | (((((x0 << 16u32) | (x1 << 8u32) | x2) >> 6u32)
            & 63u32) << 6u32) | (((x0 << 16u32) | (x1 << 8u32) | x2) & 63u32)) >> 16u32) & 255u32 == x0,
        (((((((x0 << 16u32) | (x1 << 8u32) | x2) >> 18u32) & 63u32) << 18u32) | (((((x0 << 16u32) | (x1
            << 8u32) | x2) >> 12u32) & 63u32) << 12u32) | (((((x0 << 16u32) | (x1 << 8u32) | x2) >> 6u32)
            & 63u32) << 6u32) | (((x0 << 16u32) | (x1 << 8u32) | x2) & 63u32)) >> 8u32) & 255u32 == x1,
        ((((((x0 << 16u32) | (x1 << 8u32) | x2) >> 18u32) & 63u32) << 18u32) | (((((x0 << 16u32) | (x1
            << 8u32) | x2) >> 12u32) & 63u32) << 12u32) | (((((x0 << 16u32) | (x1 << 8u32) | x2) >> 6u32)
            & 63u32) << 6u32) | (((x0 << 16u32) | (x1 << 8u32) | x2) & 63u32)) & 255u32 == x2,
        (((((((x0 << 16u32) | (x1 << 8u32)) >> 18u32) & 63u32) << 18u32) | (((((x0 << 16u32) | (x1
            << 8u32)) >> 12u32) & 63u32) << 12u32) | (((((x0 << 16u32) | (x1 << 8u32)) >> 6u32) & 63u32)
            << 6u32) | 0u32) >> 16u32) & 255u32 == x0,
        (((((((x0 << 16u32) | (x1 << 8u32)) >> 18u32) & 63u32) << 18u32) | (((((x0 << 16u32) | (x1
            << 8u32)) >> 12u32) & 63u32) << 12u32) | (((((x0 << 16u32) | (x1 << 8u32)) >> 6u32) & 63u32)
            << 6u32) | 0u32) >> 8u32) & 255u32 == x1,
        ((((((x0 << 16u32) >> 18u32) & 63u32) << 18u32) | ((((x0 << 16u32) >> 12u32) & 63u32) << 12u32)
            | (0u32 << 6u32) | 0u32) >> 16u32) & 255u32 == x0,
        ((x0 << 16u32) | (x1 << 8u32) | x2) >> 18u32 & 63u32 < 64,
        ((x0 << 16u32) | (x1 << 8u32) | x2) >> 12u32 & 63u32 < 64,
        ((x0 << 16u32) | (x1 << 8u32) | x2) >> 6u32 & 63u32 < 64,
        ((x0 << 16u32) | (x1 << 8u32) | x2) & 63u32 < 64,
        (x0 << 16u32) | (0u32 << 8u32) | 0u32 == x0 << 16u32,
        (x0 << 16u32) | (x1 << 8u32) | 0u32 == (x0 << 16u32) | (x1 << 8u32),
{
}

/// The characters of one encoded group are ASCII, not white space, and decode back
/// to the group, whatever follows them.
proof fn lemma_group_round_trip(g: Seq<u8>, b: Seq<u8>)
    requires
        1 <= g.len() <= 3,
        b.len() >= 4,
        b.take(4) == ascii_bytes(encode_group(g)),
    ensures
        b[0] != 61,
        b64_value(b[0]) != 255,
        sextet_at(b, 1) != 255,
        decode_group(b) == g,
{
    let x0 = g[0] as u32;
    let x1 = if g.len() > 1 { g[1] as u32 } else { 0u32 };
    let x2 = if g.len() > 2 { g[2] as u32 } else { 0u32 };
    lemma_group_bits(x0, x1, x2);
    let t = (x0 << 16u32) | (x1 << 8u32) | x2;
    let e = encode_group(g);
    lemma_alphabet_byte(((t >> 18u32) & 63u32) as int);
    lemma_alphabet_byte(((t >> 12u32) & 63u32) as int);
    lemma_alphabet_byte(((t >> 6u32) & 63u32) as int);
    lemma_alphabet_byte((t & 63u32) as int);
    assert(b[0] == b.take(4)[0]);
    assert(b[1] == b.take(4)[1]);
    assert(b[2] == b.take(4)[2]);
    assert(b[3] == b.take(4)[3]);
    assert(('=' as u8) == 61u8);
    assert(decode_group(b) =~= g);
}

proof fn lemma_encoded_text(x: Seq<u8>)
    ensures
        forall|i: int| 0 <= i < base64_of(x).len() ==> '\0' <= #[trigger] base64_of(x)[i] <= '\u{7f}'
            && !is_ws(base64_of(x)[i]),
        x.len() > 0 ==> base64_of(x).len() >= 4,
        base64_of(x).len() % 4 == 0,
    decreases x.len(),
{
    if x.len() > 0 {
        let g = if x.len() <= 3 { x } else { x.take(3) };
        let x0 = g[0] as u32;
        let x1 = if g.len() > 1 { g[1] as u32 } else { 0u32 };
        let x2 = if g.len() > 2 { g[2] as u32 } else { 0u32 };
        lemma_group_bits(x0, x1, x2);
        let t = (x0 << 16u32) | (x1 << 8u32) | x2;
        lemma_alphabet_byte(((t >> 18u32) & 63u32) as int);
        lemma_alphabet_byte(((t >> 12u32) & 63u32) as int);
        lemma_alphabet_byte(((t >> 6u32) & 63u32) as int);
        lemma_alphabet_byte((t & 63u32) as int);
        let e = encode_group(g);
        assert forall|i: int| 0 <= i < e.len() implies '\0' <= #[trigger] e[i] <= '\u{7f}' && !is_ws(e[i]) by {}
        if x.len() > 3 {
            lemma_encoded_text(x.skip(3));
            let r = base64_of(x.skip(3));
            assert forall|i: int| 0 <= i < base64_of(x).len() implies '\0' <= #[trigger] base64_of(x)[i]
                <= '\u{7f}' && !is_ws(base64_of(x)[i]) by {
                if i < 4 {
                    assert(base64_of(x)[i] == e[i]);
                } else {
                    assert(base64_of(x)[i] == r[i - 4]);
                }
            }
        }
    }
}

proof fn lemma_without_ws_identity(s: Seq<char>)
    requires
        forall|i: int| 0 <= i < s.len() ==> !is_ws(#[trigger] s[i]),
    ensures
        without_ws(s) == s,
    decreases s.len(),
{
    if s.len() > 0 {
        lemma_without_ws_identity(s.drop_last());
        assert(s.drop_last().push(s.last()) =~= s);
    }
}

proof fn lemma_decode_encoded(x: Seq<u8>)
    ensures
        decode_bytes(ascii_bytes(base64_of(x))) == x,
    decreases x.len(),
{
    if x.len() == 0 {
        assert(ascii_bytes(base64_of(x)) =~= Seq::<u8>::empty());
    } else {
        let g = if x.len() <= 3 { x } else { x.take(3) };
        let e = encode_group(g);
        let b = ascii_bytes(base64_of(x));
        if x.len() <= 3 {
            assert(b.take(4) =~= ascii_bytes(e));
            lemma_group_round_trip(g, b);
        } else {
            let r = base64_of(x.skip(3));
            lemma_encoded_text(x.skip(3));
            assert(b.take(4) =~= ascii_bytes(e));
            lemma_group_round_trip(g, b);
            assert(b.skip(4) =~= ascii_bytes(r));
            lemma_decode_encoded(x.skip(3));
            assert(g + x.skip(3) =~= x);
        }
    }
}

/// Decoding the base64 text of any bytes gives those bytes back.
pub proof fn lemma_base64_round_trip(x: Seq<u8>)
    ensures
        base64_decoded(base64_of(x)) == x,
{
    let s = base64_of(x);
    lemma_encoded_text(x);
    lemma_without_ws_identity(s);
    assert(vstd::utf8::is_ascii_chars(s)) by {
        assert forall|i: int| 0 <= i < s.len() implies '\0' <= #[trigger] s[i] <= '\u{7f}' by {}
    }
    vstd::utf8::is_ascii_chars_encode_utf8(s);
    assert(encode_utf8(s) =~= ascii_bytes(s));
    lemma_decode_encoded(x);
}

} // verus!
