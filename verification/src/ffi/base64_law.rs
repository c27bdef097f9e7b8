//! Decoding base64 text (RFC 4648 alphabet and padding), and the law that
//! decoding what the thumbnail encoder wrote gives the bytes back.
use vstd::prelude::*;
use super::json::{b64_char, b64_chunk, b64_prefix, base64_spec};
use vstd::arithmetic::div_mod::{lemma_fundamental_div_mod, lemma_fundamental_div_mod_converse, lemma_mod_bound};

verus! {

/// The value of a base64 alphabet character (RFC 4648, table 1): `A`..`Z`
/// are 0..25, `a`..`z` 26..51, `0`..`9` 52..61, `+` is 62 and `/` is 63;
/// any other character has none.
pub open spec fn b64_value(c: char) -> Option<nat> {
    let u = c as u32;
    if 65 <= u <= 90 {
        Some((u - 65) as nat)
    } else if 97 <= u <= 122 {
        Some((u - 97 + 26) as nat)
    } else if 48 <= u <= 57 {
        Some((u - 48 + 52) as nat)
    } else if u == 43 {
        Some(62)
    } else if u == 47 {
        Some(63)
    } else {
        None
    }
}

/// The value of a character, zero when it has none (padding).
pub open spec fn b64_digit(c: char) -> nat {
    match b64_value(c) {
        Some(v) => v,
        None => 0,
    }
}

/// The bytes a group of four base64 characters stands for: three, or one
/// or two when the group ends in `==` or `=`.
pub open spec fn b64_group_bytes(g: Seq<char>) -> Seq<u8> {
    let n = b64_digit(g[0]) * 262144 + b64_digit(g[1]) * 4096 + b64_digit(g[2]) * 64 + b64_digit(g[3]);
    let all = seq![(n / 65536) as u8, ((n / 256) % 256) as u8, (n % 256) as u8];
    if g[2] == '=' {
        all.take(1)
    } else if g[3] == '=' {
        all.take(2)
    } else {
        all
    }
}

/// Decoding base64 text of whole groups of four characters.
pub open spec fn b64_decode(s: Seq<char>) -> Seq<u8>
    decreases s.len(),
{
    if s.len() < 4 {
        Seq::empty()
    } else {
        b64_decode(s.take(s.len() - 4)) + b64_group_bytes(s.skip(s.len() - 4))
    }
}

/// Each of the 64 values has its own alphabet character, which is never
/// the padding character, and decodes back to it.
pub proof fn lemma_b64_char_decodes(i: nat)
    requires
        i < 64,
    ensures
        b64_value(b64_char(i)) == Some(i),
        b64_char(i) != '=',
{
}

/// The alphabet is the RFC 4648 one: distinct values give distinct
/// characters, 62 is `+` and 63 is `/`.
pub proof fn lemma_b64_alphabet(i: nat, j: nat)
    requires
        i < 64,
        j < 64,
    ensures
        i != j ==> b64_char(i) != b64_char(j),
        b64_char(62) == '+',
        b64_char(63) == '/',
        b64_char(0) == 'A',
        b64_char(26) == 'a',
        b64_char(52) == '0',
{
    lemma_b64_char_decodes(i);
    lemma_b64_char_decodes(j);
}


/// The four 6-bit digits of a 24-bit group make the group again, and its
/// three bytes are its high, middle and low eight bits.
proof fn lemma_b64_digits(b0: int, b1: int, b2: int)
    requires
        0 <= b0 < 256,
        0 <= b1 < 256,
        0 <= b2 < 256,
    ensures
        ({
            let n = b0 * 65536 + b1 * 256 + b2;
            &&& (n / 262144) % 64 * 262144 + (n / 4096) % 64 * 4096 + (n / 64) % 64 * 64 + n % 64 == n
            &&& n / 65536 == b0
            &&& (n / 256) % 256 == b1
            &&& n % 256 == b2
            &&& n % 64 == b2 % 64
            &&& (n / 64) % 64 * 64 + n % 64 == (b1 % 16) * 256 + b2
        }),
{
    let n = b0 * 65536 + b1 * 256 + b2;
    let q0 = b0 / 4;
    let r0 = b0 % 4;
    let q1 = b1 / 16;
    let r1 = b1 % 16;
    let q2 = b2 / 64;
    let r2 = b2 % 64;
    lemma_fundamental_div_mod(b1, 16);
    lemma_mod_bound(b1, 16);
    lemma_fundamental_div_mod(b2, 64);
    lemma_mod_bound(b2, 64);
    lemma_fundamental_div_mod(b0, 4);
    lemma_mod_bound(b0, 4);
    assert(0 <= q0 < 64 && 0 <= q1 < 16 && 0 <= q2 < 4);
    // n = q0 * 262144 + (r0 * 65536 + b1 * 256 + b2)
    lemma_fundamental_div_mod_converse(n, 262144, q0, r0 * 65536 + b1 * 256 + b2);
    lemma_fundamental_div_mod_converse(q0, 64, 0, q0);
    // n / 4096 = b0 * 16 + q1, remainder r1 * 256 + b2
    lemma_fundamental_div_mod_converse(n, 4096, b0 * 16 + q1, r1 * 256 + b2);
    lemma_fundamental_div_mod_converse(b0 * 16 + q1, 64, q0, r0 * 16 + q1);
    // n / 64 = b0 * 1024 + b1 * 4 + q2, remainder r2
    lemma_fundamental_div_mod_converse(n, 64, b0 * 1024 + b1 * 4 + q2, r2);
    lemma_fundamental_div_mod_converse(b0 * 1024 + b1 * 4 + q2, 64, b0 * 16 + q1, r1 * 4 + q2);
    // the bytes
    lemma_fundamental_div_mod_converse(n, 65536, b0, b1 * 256 + b2);
    lemma_fundamental_div_mod_converse(n, 256, b0 * 256 + b1, b2);
    lemma_fundamental_div_mod_converse(b0 * 256 + b1, 256, b0, b1);
}

/// Chunk `j` of the base64 form of `b` decodes to bytes `3j..3j+3` of `b`,
/// or to what is left of `b` there when the chunk is its padded last one.
proof fn lemma_b64_chunk_decodes(b: Seq<u8>, j: int)
    requires
        0 <= j,
        3 * j < b.len(),
    ensures
        b64_group_bytes(b64_chunk(b, j)) == b.subrange(
            3 * j,
            if b.len() - 3 * j >= 3 {
                3 * j + 3
            } else {
                b.len() as int
            },
        ),
{
    let r = b.len() - 3 * j;
    let b0 = b[3 * j] as nat;
    let b1: nat = if r > 1 { b[3 * j + 1] as nat } else { 0 };
    let b2: nat = if r > 2 { b[3 * j + 2] as nat } else { 0 };
    let n = b0 * 65536 + b1 * 256 + b2;
    lemma_b64_digits(b0 as int, b1 as int, b2 as int);
    let g = b64_chunk(b, j);
    let d0 = (n / 262144) % 64;
    let d1 = (n / 4096) % 64;
    let d2 = (n / 64) % 64;
    let d3 = n % 64;
    lemma_b64_char_decodes(d0);
    lemma_b64_char_decodes(d1);
    lemma_b64_char_decodes(d2);
    lemma_b64_char_decodes(d3);
    assert(b64_value('=') is None);
    let m = b64_digit(g[0]) * 262144 + b64_digit(g[1]) * 4096 + b64_digit(g[2]) * 64 + b64_digit(g[3]);
    assert(m == n);
    let all = seq![(m / 65536) as u8, ((m / 256) % 256) as u8, (m % 256) as u8];
    if r >= 3 {
        assert(b64_group_bytes(g) =~= all);
        assert(all =~= b.subrange(3 * j, 3 * j + 3));
    } else if r == 2 {
        assert(b64_group_bytes(g) =~= all.take(2));
        assert(all.take(2) =~= b.subrange(3 * j, b.len() as int));
    } else {
        assert(b64_group_bytes(g) =~= all.take(1));
        assert(all.take(1) =~= b.subrange(3 * j, b.len() as int));
    }
}

/// The first `k` chunks of the base64 form of `b` are `4k` characters and
/// decode to the first `3k` bytes of `b` (all of `b` once the chunks reach
/// its end).
proof fn lemma_b64_prefix_decodes(b: Seq<u8>, k: nat)
    requires
        3 * k <= b.len() + 2,
    ensures
        b64_prefix(b, k).len() == 4 * k,
        b64_decode(b64_prefix(b, k)) == b.take(if 3 * k <= b.len() { 3 * k as int } else { b.len() as int }),
    decreases k,
{
    if k > 0 {
        lemma_b64_prefix_decodes(b, (k - 1) as nat);
        let p = b64_prefix(b, (k - 1) as nat);
        let s = b64_prefix(b, k);
        assert(s.take(s.len() - 4) =~= p);
        assert(s.skip(s.len() - 4) =~= b64_chunk(b, k - 1));
        lemma_b64_chunk_decodes(b, k - 1);
        let end: int = if 3 * k <= b.len() { 3 * k as int } else { b.len() as int };
        assert(b.take(3 * (k - 1)) + b.subrange(3 * (k - 1), end) =~= b.take(end));
    } else {
        assert(b.take(0) =~= Seq::<u8>::empty());
    }
}

/// Decoding the base64 form of any bytes gives the bytes back: the encoding
/// loses nothing and confuses no two inputs.
pub proof fn lemma_base64_roundtrip(b: Seq<u8>)
    ensures
        b64_decode(base64_spec(b)) == b,
{
    let k = ((b.len() + 2) / 3) as nat;
    lemma_b64_prefix_decodes(b, k);
    assert(b.take(b.len() as int) =~= b);
}

} // verus!
