//! UTF-16 model of PTP strings and its lemmas.
use vstd::prelude::*;

use crate::codec::{
    ints_bytes, le_bytes, le_i, le_value, lemma_ints_bytes_len, lemma_le_roundtrip, lemma_pow256_16,
    truncated, u16_ints, unsigned_of,
};
use crate::error::ProtoError;

verus! {

// ---------------------------------------------------------------------------
// PTP strings (UTF-16LE, count-prefixed)
// ---------------------------------------------------------------------------

pub open spec fn is_high_surrogate(u: u16) -> bool {
    0xD800 <= u <= 0xDBFF
}

pub open spec fn is_low_surrogate(u: u16) -> bool {
    0xDC00 <= u <= 0xDFFF
}

pub open spec fn is_surrogate(u: u16) -> bool {
    0xD800 <= u <= 0xDFFF
}

/// The UTF-16 code units of one character.
pub open spec fn utf16_of_char(c: char) -> Seq<u16> {
    let v = c as u32;
    if v < 0x10000 {
        seq![v as u16]
    } else {
        seq![(0xD800 + (v - 0x10000) / 0x400) as u16, (0xDC00 + (v - 0x10000) % 0x400) as u16]
    }
}

/// The UTF-16 encoding of a character sequence.
pub open spec fn utf16_encode(s: Seq<char>) -> Seq<u16>
    decreases s.len(),
{
    if s.len() == 0 {
        Seq::empty()
    } else {
        utf16_of_char(s[0]) + utf16_encode(s.drop_first())
    }
}

/// The scalar a surrogate pair stands for.
pub open spec fn pair_scalar(h: u16, l: u16) -> u32 {
    (0x10000 + (h - 0xD800) * 0x400 + (l - 0xDC00)) as u32
}

/// Lossy UTF-16 decoding: a well-formed pair becomes its scalar, any other
/// surrogate becomes U+FFFD, every other unit is its own character.
pub open spec fn utf16_decode(u: Seq<u16>) -> Seq<char>
    decreases u.len(),
{
    if u.len() == 0 {
        Seq::empty()
    } else if u.len() >= 2 && is_high_surrogate(u[0]) && is_low_surrogate(u[1]) {
        seq![pair_scalar(u[0], u[1]) as char] + utf16_decode(u.subrange(2, u.len() as int))
    } else if is_surrogate(u[0]) {
        seq!['\u{FFFD}'] + utf16_decode(u.drop_first())
    } else {
        seq![u[0] as u32 as char] + utf16_decode(u.drop_first())
    }
}

/// Largest number of content code units a PTP string carries (the count byte
/// also counts the NUL terminator, and must fit in one byte below 255).
pub open spec fn max_content_units() -> nat {
    253
}

/// The content units actually sent for `s`: its UTF-16 encoding, capped at
/// 253 units without ever ending on a lone high surrogate.
pub open spec fn ptp_units(s: Seq<char>) -> Seq<u16> {
    let u = utf16_encode(s);
    if u.len() < 253 {
        u
    } else if is_high_surrogate(u[252]) {
        u.take(252)
    } else {
        u.take(253)
    }
}

/// Wire form of a PTP string: a count byte (content units plus the NUL
/// terminator), the units little-endian, then the NUL unit. The empty string
/// is a lone `0x00`.
pub open spec fn ptp_string_bytes(s: Seq<char>) -> Seq<u8> {
    if s.len() == 0 {
        seq![0u8]
    } else {
        let u = ptp_units(s);
        seq![(u.len() + 1) as u8] + ints_bytes(u16_ints(u), 2) + seq![0u8, 0u8]
    }
}

/// The `count` code units stored little-endian in `b`.
pub open spec fn units_of(b: Seq<u8>, count: nat) -> Seq<u16> {
    Seq::new(count, |i: int| le_value(b.subrange(2 * i, 2 * i + 2)) as u16)
}

/// Drop one trailing NUL unit, if present.
pub open spec fn strip_nul(u: Seq<u16>) -> Seq<u16> {
    if u.len() > 0 && u.last() == 0 {
        u.drop_last()
    } else {
        u
    }
}

/// What reading a PTP string from `b` yields, and the cursor it leaves.
pub open spec fn ptp_string_read(b: Seq<u8>) -> (Result<Seq<char>, ProtoError>, Seq<u8>) {
    if b.len() == 0 {
        (Err(truncated(1, 0)), b)
    } else {
        let sz = b[0] as nat;
        let rest = b.skip(1);
        if sz == 0 {
            (Ok(Seq::empty()), rest)
        } else if rest.len() < 2 * sz {
            (Err(truncated(2 * sz, rest.len())), rest)
        } else {
            (Ok(utf16_decode(strip_nul(units_of(rest, sz)))), rest.skip((2 * sz) as int))
        }
    }
}

pub proof fn lemma_utf16_encode_push(s: Seq<char>, c: char)
    ensures
        utf16_encode(s.push(c)) == utf16_encode(s) + utf16_of_char(c),
    decreases s.len(),
{
    if s.len() == 0 {
        assert(s.push(c).drop_first() =~= s);
        assert(utf16_encode(s.push(c)) =~= utf16_of_char(c));
    } else {
        lemma_utf16_encode_push(s.drop_first(), c);
        assert(s.push(c).drop_first() =~= s.drop_first().push(c));
        assert(utf16_encode(s.push(c)) =~= utf16_encode(s) + utf16_of_char(c));
    }
}

pub proof fn lemma_utf16_of_char_shape(c: char)
    ensures
        ({
            let u = utf16_of_char(c);
            &&& 1 <= u.len() <= 2
            &&& u.len() == 1 ==> !is_surrogate(u[0]) && (u[0] as u32 as char) == c
            &&& u.len() == 2 ==> is_high_surrogate(u[0]) && is_low_surrogate(u[1])
                && (pair_scalar(u[0], u[1]) as char) == c
        }),
{
    broadcast use vstd::utf8::char_is_scalar, vstd::utf8::char_u32_cast;
    let v = c as u32;
    assert(vstd::utf8::is_scalar(v));
    if v >= 0x10000 {
        let w = (v - 0x10000) as int;
        assert(w == 0x400 * (w / 0x400) + w % 0x400) by {
            vstd::arithmetic::div_mod::lemma_fundamental_div_mod(w, 0x400);
        }
        assert(0 <= w % 0x400 < 0x400) by {
            vstd::arithmetic::div_mod::lemma_mod_bound(w, 0x400);
        }
        assert(w / 0x400 <= 0x3FF) by {
            vstd::arithmetic::div_mod::lemma_div_is_ordered(w, 0xFFFFF, 0x400);
        }
        assert(pair_scalar(utf16_of_char(c)[0], utf16_of_char(c)[1]) == v);
    }
}

/// Decoding the UTF-16 encoding of any character sequence gives it back.
pub proof fn lemma_utf16_roundtrip(s: Seq<char>)
    ensures
        utf16_decode(utf16_encode(s)) == s,
    decreases s.len(),
{
    if s.len() > 0 {
        lemma_utf16_roundtrip(s.drop_first());
        lemma_utf16_of_char_shape(s[0]);
        let u = utf16_encode(s);
        let head = utf16_of_char(s[0]);
        let tail = utf16_encode(s.drop_first());
        assert(u == head + tail);
        if head.len() == 1 {
            assert(u.drop_first() =~= tail);
        } else {
            assert(u.subrange(2, u.len() as int) =~= tail);
        }
        assert(utf16_decode(u) =~= s);
    } else {
        assert(utf16_decode(utf16_encode(s)) =~= s);
    }
}

/// Chunk `i` of the bytes of an integer sequence is the encoding of element
/// `i`.
pub proof fn lemma_ints_bytes_chunk(v: Seq<int>, w: nat, i: int)
    requires
        0 <= i < v.len(),
    ensures
        ints_bytes(v, w).subrange(w * i, w * i + w) == le_i(v[i], w),
    decreases v.len(),
{
    lemma_ints_bytes_len(v, w);
    lemma_ints_bytes_len(v.drop_last(), w);
    crate::codec::lemma_le_bytes_len(unsigned_of(v.last(), w), w);
    let pre = ints_bytes(v.drop_last(), w);
    assert(ints_bytes(v, w) == pre + le_i(v.last(), w));
    let k = w * i;
    let n1 = v.len() - 1;
    assert(pre.len() == n1 * w);
    assert(n1 * w == w * n1) by (nonlinear_arith);
    if i < v.len() - 1 {
        lemma_ints_bytes_chunk(v.drop_last(), w, i);
        assert(k + w <= w * n1) by (nonlinear_arith)
            requires i < n1, w >= 0, k == w * i;
        assert(ints_bytes(v, w).subrange(k, k + w) =~= pre.subrange(k, k + w));
    } else {
        assert(k == w * n1);
        assert(ints_bytes(v, w).subrange(k, k + w) =~= le_i(v.last(), w));
    }
}

/// The code units stored by `ints_bytes` read back as the same units.
pub proof fn lemma_units_of_bytes(u: Seq<u16>, extra: Seq<u8>)
    ensures
        units_of(ints_bytes(u16_ints(u), 2) + extra, u.len()) == u,
{
    let b = ints_bytes(u16_ints(u), 2) + extra;
    lemma_ints_bytes_len(u16_ints(u), 2);
    lemma_pow256_16();
    assert forall|i: int| 0 <= i < u.len() implies #[trigger] units_of(b, u.len())[i] == u[i] by {
        lemma_ints_bytes_chunk(u16_ints(u), 2, i);
        assert(b.subrange(2 * i, 2 * i + 2) =~= ints_bytes(u16_ints(u), 2).subrange(2 * i, 2 * i + 2));
        lemma_le_roundtrip(u[i] as nat, 2);
    }
    assert(units_of(b, u.len()) =~= u);
}

/// A valid UTF-16 encoding never ends on a high surrogate.
pub proof fn lemma_utf16_last_not_high(s: Seq<char>)
    requires
        s.len() > 0,
    ensures
        utf16_encode(s).len() > 0,
        !is_high_surrogate(utf16_encode(s).last()),
    decreases s.len(),
{
    lemma_utf16_of_char_shape(s[0]);
    if s.len() > 1 {
        lemma_utf16_last_not_high(s.drop_first());
    } else {
        assert(s.drop_first().len() == 0);
        reveal_with_fuel(utf16_encode, 2);
        assert(utf16_encode(s) =~= utf16_of_char(s[0]));
    }
}

/// Reading back what `encode_string` wrote gives the original characters and
/// leaves the cursor just past the string, for every string whose UTF-16 form
/// fits the 253-unit limit.
pub proof fn lemma_ptp_string_roundtrip(s: Seq<char>, tail: Seq<u8>)
    requires
        utf16_encode(s).len() <= max_content_units(),
    ensures
        ptp_string_read(ptp_string_bytes(s) + tail) == (Ok::<Seq<char>, ProtoError>(s), tail),
{
    let b = ptp_string_bytes(s) + tail;
    if s.len() == 0 {
        assert(b.skip(1) =~= tail);
        assert(s =~= Seq::<char>::empty());
    } else {
        lemma_utf16_of_char_shape(s[0]);
        lemma_utf16_last_not_high(s);
        let u = utf16_encode(s);
        assert(u.take(u.len() as int) =~= u);
        assert(ptp_units(s) == u);
        let body = ints_bytes(u16_ints(u), 2);
        lemma_ints_bytes_len(u16_ints(u), 2);
        let rest = b.skip(1);
        assert(rest =~= body + seq![0u8, 0u8] + tail);
        let full = u.push(0u16);
        assert(u16_ints(full) =~= u16_ints(u).push(0));
        crate::codec::lemma_ints_bytes_push(u16_ints(u), 0, 2);
        lemma_pow256_16();
        assert(le_i(0, 2) =~= seq![0u8, 0u8]) by {
            reveal_with_fuel(le_bytes, 3);
        }
        assert(rest =~= ints_bytes(u16_ints(full), 2) + tail);
        lemma_units_of_bytes(full, tail);
        assert(strip_nul(full) =~= u);
        lemma_utf16_roundtrip(s);
        lemma_ints_bytes_len(u16_ints(full), 2);
        let sz = (u.len() + 1) as nat;
        assert(b[0] as nat == sz);
        assert(rest.len() >= 2 * sz);
        assert(units_of(rest, sz) == full);
        assert(rest.skip(2 * sz as int) =~= tail);
        assert(ptp_string_read(b).0 == Ok::<Seq<char>, ProtoError>(utf16_decode(strip_nul(full))));
    }
}

} // verus!
