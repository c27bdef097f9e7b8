//! PTP dataset codec primitives: little-endian integers, count-prefixed
//! arrays, PTP strings and PTP datetimes.
//!
//! Decoders read from and advance a `&mut &[u8]` cursor; a fixed-width read
//! that fails leaves the cursor where it was. Encoders append to a
//! `&mut Vec<u8>`.
use vstd::prelude::*;
use vstd::arithmetic::div_mod::lemma_div_denominator;

use crate::error::ProtoError;

pub use crate::datetime::{civil_from_days, days_from_civil, decode_datetime, encode_datetime};
pub use crate::ptp_string::{decode_string, encode_string};

verus! {

// ---------------------------------------------------------------------------
// Little-endian model
// ---------------------------------------------------------------------------

/// `256^n`.
pub open spec fn pow256(n: nat) -> nat
    decreases n,
{
    if n == 0 {
        1
    } else {
        256 * pow256((n - 1) as nat)
    }
}

/// The unsigned value of a little-endian byte sequence.
pub open spec fn le_value(s: Seq<u8>) -> nat
    decreases s.len(),
{
    if s.len() == 0 {
        0
    } else {
        s[0] as nat + 256 * le_value(s.drop_first())
    }
}

/// The `n` low-order bytes of `v`, least significant first.
pub open spec fn le_bytes(v: nat, n: nat) -> Seq<u8>
    decreases n,
{
    if n == 0 {
        Seq::empty()
    } else {
        seq![(v % 256) as u8] + le_bytes(v / 256, (n - 1) as nat)
    }
}

/// Two's-complement reading of an unsigned `bits`-wide value.
pub open spec fn signed_of(u: nat, bits: nat) -> int {
    if u < pow256((bits / 8) as nat) / 2 {
        u as int
    } else {
        u as int - pow256((bits / 8) as nat) as int
    }
}

/// Two's-complement unsigned representation of a signed value in `n` bytes.
pub open spec fn unsigned_of(v: int, n: nat) -> nat {
    if v >= 0 {
        v as nat
    } else {
        (v + pow256(n)) as nat
    }
}

/// The bytes `write_*` emits for an unsigned value of width `n`.
pub open spec fn le_u(v: int, n: nat) -> Seq<u8> {
    le_bytes(v as nat, n)
}

/// The bytes `write_i*` emits for a signed value of width `n`.
pub open spec fn le_i(v: int, n: nat) -> Seq<u8> {
    le_bytes(unsigned_of(v, n), n)
}

/// What a fixed-width read of `n` bytes does to a buffer: either the value of
/// the first `n` bytes and the rest, or `Truncated` with the buffer untouched.
pub open spec fn truncated(need: nat, have: nat) -> ProtoError {
    ProtoError::Truncated { need: need as usize, have: have as usize }
}

pub proof fn lemma_pow256_pos(n: nat)
    ensures
        pow256(n) >= 1,
    decreases n,
{
    if n > 0 {
        lemma_pow256_pos((n - 1) as nat);
    }
}

pub proof fn lemma_pow256_mono(a: nat, b: nat)
    requires
        a <= b,
    ensures
        pow256(a) <= pow256(b),
    decreases b,
{
    if a < b {
        lemma_pow256_mono(a, (b - 1) as nat);
        lemma_pow256_pos((b - 1) as nat);
    }
}

pub proof fn lemma_pow256_16()
    ensures
        pow256(1) == 0x100,
        pow256(2) == 0x1_0000,
        pow256(4) == 0x1_0000_0000,
        pow256(8) == 0x1_0000_0000_0000_0000,
        pow256(15) == 0x1_0000_0000_0000_0000_0000_0000_0000_00,
        pow256(16) == 0x1_0000_0000_0000_0000_0000_0000_0000_0000,
{
    reveal_with_fuel(pow256, 17);
}

pub proof fn lemma_le_bytes_len(v: nat, n: nat)
    ensures
        le_bytes(v, n).len() == n,
    decreases n,
{
    if n > 0 {
        lemma_le_bytes_len(v / 256, (n - 1) as nat);
    }
}

pub proof fn lemma_le_value_bound(s: Seq<u8>)
    ensures
        le_value(s) < pow256(s.len()),
    decreases s.len(),
{
    if s.len() > 0 {
        lemma_le_value_bound(s.drop_first());
    }
}

/// `le_bytes` splits at any point `i <= n`.
pub proof fn lemma_le_bytes_split(v: nat, i: nat, n: nat)
    requires
        i <= n,
    ensures
        le_bytes(v, n) == le_bytes(v, i) + le_bytes(v / pow256(i), (n - i) as nat),
    decreases i,
{
    if i == 0 {
        assert(pow256(0) == 1);
        assert(v / 1 == v);
        assert(le_bytes(v, 0) + le_bytes(v, n) =~= le_bytes(v, n));
    } else {
        lemma_pow256_pos((i - 1) as nat);
        lemma_le_bytes_split(v / 256, (i - 1) as nat, (n - 1) as nat);
        lemma_div_denominator(v as int, 256, pow256((i - 1) as nat) as int);
        assert(pow256(i) == 256 * pow256((i - 1) as nat));
        assert(le_bytes(v, n) =~= le_bytes(v, i) + le_bytes(v / pow256(i), (n - i) as nat));
    }
}

/// Writing the low `n` bytes and reading them back gives `v mod 256^n`.
pub proof fn lemma_le_value_of_bytes(v: nat, n: nat)
    ensures
        le_value(le_bytes(v, n)) == v % pow256(n),
    decreases n,
{
    if n > 0 {
        lemma_le_value_of_bytes(v / 256, (n - 1) as nat);
        lemma_le_bytes_len(v, n);
        assert(le_bytes(v, n).drop_first() =~= le_bytes(v / 256, (n - 1) as nat));
        lemma_pow256_pos((n - 1) as nat);
        let p = pow256((n - 1) as nat) as int;
        assert((v as int % 256) + 256 * ((v as int / 256) % p) == v as int % (256 * p))
            by (nonlinear_arith)
            requires
                p >= 1,
                v >= 0,
        {
            vstd::arithmetic::div_mod::lemma_breakdown(v as int, 256, p);
        }
    } else {
        assert(v % 1 == 0);
    }
}

/// A byte sequence is the encoding of its own value.
pub proof fn lemma_bytes_of_le_value(s: Seq<u8>)
    ensures
        le_bytes(le_value(s), s.len()) == s,
    decreases s.len(),
{
    if s.len() > 0 {
        lemma_bytes_of_le_value(s.drop_first());
        let v = le_value(s);
        let r = le_value(s.drop_first());
        assert(v % 256 == s[0] as nat);
        assert(v / 256 == r);
        assert(le_bytes(v, s.len()) =~= s);
    } else {
        assert(le_bytes(0, 0) =~= s);
    }
}

/// Exact round trip for a value that fits in `n` bytes.
pub proof fn lemma_le_roundtrip(v: nat, n: nat)
    requires
        v < pow256(n),
    ensures
        le_value(le_bytes(v, n)) == v,
        le_bytes(v, n).len() == n,
{
    lemma_le_value_of_bytes(v, n);
    lemma_le_bytes_len(v, n);
    vstd::arithmetic::div_mod::lemma_small_mod(v, pow256(n));
}

/// The first `n` bytes of a long-enough buffer are the encoding of their
/// unsigned value and of their two's-complement value.
pub proof fn lemma_read_bytes(s: Seq<u8>, n: nat)
    requires
        1 <= n <= 16,
    ensures
        s.len() >= n ==> le_u(le_value(s.take(n as int)) as int, n) == s.take(n as int),
        s.len() >= n ==> le_i(signed_of(le_value(s.take(n as int)), 8 * n), n) == s.take(n as int),
{
    if s.len() >= n {
        let t = s.take(n as int);
        lemma_bytes_of_le_value(t);
        lemma_le_value_bound(t);
        let u = le_value(t);
        assert((8 * n) / 8 == n) by (nonlinear_arith);
        lemma_pow256_pos(n);
        lemma_pow256_mono(1, n);
        assert(pow256(1) == 256) by { reveal_with_fuel(pow256, 2); }
        assert(unsigned_of(signed_of(u, 8 * n), n) == u);
    }
}

/// The bytes of a sequence of integers, each encoded in `w` bytes.
pub open spec fn ints_bytes(v: Seq<int>, w: nat) -> Seq<u8>
    decreases v.len(),
{
    if v.len() == 0 {
        Seq::empty()
    } else {
        ints_bytes(v.drop_last(), w) + le_i(v.last(), w)
    }
}

pub proof fn lemma_ints_bytes_push(v: Seq<int>, x: int, w: nat)
    ensures
        ints_bytes(v.push(x), w) == ints_bytes(v, w) + le_i(x, w),
{
    assert(v.push(x).drop_last() =~= v);
}

pub proof fn lemma_ints_bytes_len(v: Seq<int>, w: nat)
    ensures
        ints_bytes(v, w).len() == v.len() * w,
    decreases v.len(),
{
    if v.len() > 0 {
        lemma_ints_bytes_len(v.drop_last(), w);
        lemma_le_bytes_len(unsigned_of(v.last(), w), w);
        assert((v.len() - 1) * w + w == v.len() * w) by (nonlinear_arith);
    }
}

// ---------------------------------------------------------------------------
// Generic fixed-width read / write
// ---------------------------------------------------------------------------

/// Read `n` little-endian bytes as an unsigned value, advancing `buf`.
fn read_le(buf: &mut &[u8], n: usize) -> (res: Result<u128, ProtoError>)
    requires
        1 <= n <= 16,
    ensures
        old(buf)@.len() >= n ==> {
            &&& res == Ok::<u128, ProtoError>(le_value(old(buf)@.take(n as int)) as u128)
            &&& final(buf)@ == old(buf)@.skip(n as int)
        },
        old(buf)@.len() < n ==> {
            &&& res == Err::<u128, ProtoError>(truncated(n as nat, old(buf)@.len()))
            &&& final(buf)@ == old(buf)@
        },
        res matches Ok(v) ==> v < pow256(n as nat),
        old(buf)@.len() >= n ==> le_value(old(buf)@.take(n as int)) < pow256(n as nat),
{
    if buf.len() < n {
        return Err(ProtoError::Truncated { need: n, have: buf.len() });
    }
    let (head, tail) = buf.split_at(n);
    let ghost h = head@;
    let mut acc: u128 = 0;
    let mut i: usize = n;
    proof {
        lemma_pow256_16();
    }
    while i > 0
        invariant
            0 <= i <= n <= 16,
            h.len() == n,
            head@ == h,
            acc as nat == le_value(h.subrange(i as int, n as int)),
            acc < pow256((n - i) as nat),
            pow256(15) == 0x1_0000_0000_0000_0000_0000_0000_0000_00,
        decreases i,
    {
        proof {
            lemma_pow256_mono((n - i) as nat, 15);
            assert(h.subrange(i - 1, n as int).drop_first() =~= h.subrange(i as int, n as int));
        }
        acc = acc * 256 + head[i - 1] as u128;
        i = i - 1;
    }
    proof {
        assert(h.subrange(0, n as int) =~= h);
        assert(h =~= old(buf)@.take(n as int));
    }
    *buf = tail;
    Ok(acc)
}

/// Append the `n` low-order bytes of `v`, least significant first.
fn write_le(v: u128, n: usize, out: &mut Vec<u8>)
    requires
        1 <= n <= 16,
    ensures
        final(out)@ == old(out)@ + le_bytes(v as nat, n as nat),
{
    let mut x: u128 = v;
    let mut i: usize = 0;
    proof {
        assert(old(out)@ + le_bytes(v as nat, 0) =~= old(out)@);
        assert(pow256(0) == 1);
    }
    while i < n
        invariant
            0 <= i <= n <= 16,
            x as nat == v as nat / pow256(i as nat),
            out@ == old(out)@ + le_bytes(v as nat, i as nat),
        decreases n - i,
    {
        proof {
            lemma_le_bytes_split(v as nat, i as nat, (i + 1) as nat);
            lemma_pow256_pos(i as nat);
            lemma_div_denominator(v as int, pow256(i as nat) as int, 256);
            assert(pow256((i + 1) as nat) == pow256(i as nat) * 256);
            reveal_with_fuel(le_bytes, 2);
            assert(le_bytes(x as nat, 1) =~= seq![(x % 256) as u8]);
        }
        out.push((x % 256) as u8);
        x = x / 256;
        i = i + 1;
        proof {
            assert(out@ =~= old(out)@ + le_bytes(v as nat, i as nat));
        }
    }
}

// ---------------------------------------------------------------------------
// Public integer helpers
// ---------------------------------------------------------------------------

/// Read a little-endian `u8`, advancing `buf`.
pub fn read_u8(buf: &mut &[u8]) -> (res: Result<u8, ProtoError>)
    ensures
        old(buf)@.len() >= 1 ==> res == Ok::<u8, ProtoError>(le_value(old(buf)@.take(1)) as u8)
            && final(buf)@ == old(buf)@.skip(1),
        old(buf)@.len() < 1 ==> res == Err::<u8, ProtoError>(truncated(1, old(buf)@.len()))
            && final(buf)@ == old(buf)@,
        res matches Ok(v) ==> le_u(v as int, 1) == old(buf)@.take(1),
{
    proof { lemma_read_bytes(old(buf)@, 1); }
    proof { lemma_pow256_16(); }
    match read_le(buf, 1) {
        Ok(v) => Ok(v as u8),
        Err(e) => Err(e),
    }
}

/// Read a little-endian `u16`, advancing `buf`.
pub fn read_u16(buf: &mut &[u8]) -> (res: Result<u16, ProtoError>)
    ensures
        old(buf)@.len() >= 2 ==> res == Ok::<u16, ProtoError>(le_value(old(buf)@.take(2)) as u16)
            && final(buf)@ == old(buf)@.skip(2),
        old(buf)@.len() < 2 ==> res == Err::<u16, ProtoError>(truncated(2, old(buf)@.len()))
            && final(buf)@ == old(buf)@,
        res matches Ok(v) ==> le_u(v as int, 2) == old(buf)@.take(2),
{
    proof { lemma_read_bytes(old(buf)@, 2); }
    proof { lemma_pow256_16(); }
    match read_le(buf, 2) {
        Ok(v) => Ok(v as u16),
        Err(e) => Err(e),
    }
}

/// Read a little-endian `u32`, advancing `buf`.
pub fn read_u32(buf: &mut &[u8]) -> (res: Result<u32, ProtoError>)
    ensures
        old(buf)@.len() >= 4 ==> res == Ok::<u32, ProtoError>(le_value(old(buf)@.take(4)) as u32)
            && final(buf)@ == old(buf)@.skip(4),
        old(buf)@.len() < 4 ==> res == Err::<u32, ProtoError>(truncated(4, old(buf)@.len()))
            && final(buf)@ == old(buf)@,
        res matches Ok(v) ==> le_u(v as int, 4) == old(buf)@.take(4),
{
    proof { lemma_read_bytes(old(buf)@, 4); }
    proof { lemma_pow256_16(); }
    match read_le(buf, 4) {
        Ok(v) => Ok(v as u32),
        Err(e) => Err(e),
    }
}

/// Read a little-endian `u64`, advancing `buf`.
pub fn read_u64(buf: &mut &[u8]) -> (res: Result<u64, ProtoError>)
    ensures
        old(buf)@.len() >= 8 ==> res == Ok::<u64, ProtoError>(le_value(old(buf)@.take(8)) as u64)
            && final(buf)@ == old(buf)@.skip(8),
        old(buf)@.len() < 8 ==> res == Err::<u64, ProtoError>(truncated(8, old(buf)@.len()))
            && final(buf)@ == old(buf)@,
        res matches Ok(v) ==> le_u(v as int, 8) == old(buf)@.take(8),
{
    proof { lemma_read_bytes(old(buf)@, 8); }
    proof { lemma_pow256_16(); }
    match read_le(buf, 8) {
        Ok(v) => Ok(v as u64),
        Err(e) => Err(e),
    }
}

/// Read a little-endian `u128`, advancing `buf`.
pub fn read_u128(buf: &mut &[u8]) -> (res: Result<u128, ProtoError>)
    ensures
        old(buf)@.len() >= 16 ==> res == Ok::<u128, ProtoError>(le_value(old(buf)@.take(16)) as u128)
            && final(buf)@ == old(buf)@.skip(16),
        old(buf)@.len() < 16 ==> res == Err::<u128, ProtoError>(truncated(16, old(buf)@.len()))
            && final(buf)@ == old(buf)@,
        res matches Ok(v) ==> le_u(v as int, 16) == old(buf)@.take(16),
{
    proof { lemma_read_bytes(old(buf)@, 16); lemma_pow256_16(); }
    read_le(buf, 16)
}

/// Read a little-endian two's-complement `i8`, advancing `buf`.
pub fn read_i8(buf: &mut &[u8]) -> (res: Result<i8, ProtoError>)
    ensures
        old(buf)@.len() >= 1 ==> res == Ok::<i8, ProtoError>(signed_of(le_value(old(buf)@.take(1)), 8) as i8)
            && final(buf)@ == old(buf)@.skip(1),
        old(buf)@.len() < 1 ==> res == Err::<i8, ProtoError>(truncated(1, old(buf)@.len()))
            && final(buf)@ == old(buf)@,
        res matches Ok(v) ==> le_i(v as int, 1) == old(buf)@.take(1),
{
    proof { lemma_read_bytes(old(buf)@, 1); }
    proof { lemma_pow256_16(); }
    match read_le(buf, 1) {
        Ok(v) => {
            if v < 0x80 {
                Ok(v as i8)
            } else {
                Ok((v as i16 - 0x100) as i8)
            }
        },
        Err(e) => Err(e),
    }
}

/// Read a little-endian two's-complement `i16`, advancing `buf`.
pub fn read_i16(buf: &mut &[u8]) -> (res: Result<i16, ProtoError>)
    ensures
        old(buf)@.len() >= 2 ==> res == Ok::<i16, ProtoError>(signed_of(le_value(old(buf)@.take(2)), 16) as i16)
            && final(buf)@ == old(buf)@.skip(2),
        old(buf)@.len() < 2 ==> res == Err::<i16, ProtoError>(truncated(2, old(buf)@.len()))
            && final(buf)@ == old(buf)@,
        res matches Ok(v) ==> le_i(v as int, 2) == old(buf)@.take(2),
{
    proof { lemma_read_bytes(old(buf)@, 2); }
    proof { lemma_pow256_16(); }
    match read_le(buf, 2) {
        Ok(v) => {
            if v < 0x8000 {
                Ok(v as i16)
            } else {
                Ok((v as i32 - 0x1_0000) as i16)
            }
        },
        Err(e) => Err(e),
    }
}

/// Read a little-endian two's-complement `i32`, advancing `buf`.
pub fn read_i32(buf: &mut &[u8]) -> (res: Result<i32, ProtoError>)
    ensures
        old(buf)@.len() >= 4 ==> res == Ok::<i32, ProtoError>(signed_of(le_value(old(buf)@.take(4)), 32) as i32)
            && final(buf)@ == old(buf)@.skip(4),
        old(buf)@.len() < 4 ==> res == Err::<i32, ProtoError>(truncated(4, old(buf)@.len()))
            && final(buf)@ == old(buf)@,
        res matches Ok(v) ==> le_i(v as int, 4) == old(buf)@.take(4),
{
    proof { lemma_read_bytes(old(buf)@, 4); }
    proof { lemma_pow256_16(); }
    match read_le(buf, 4) {
        Ok(v) => {
            if v < 0x8000_0000 {
                Ok(v as i32)
            } else {
                Ok((v as i64 - 0x1_0000_0000) as i32)
            }
        },
        Err(e) => Err(e),
    }
}

/// Read a little-endian two's-complement `i64`, advancing `buf`.
pub fn read_i64(buf: &mut &[u8]) -> (res: Result<i64, ProtoError>)
    ensures
        old(buf)@.len() >= 8 ==> res == Ok::<i64, ProtoError>(signed_of(le_value(old(buf)@.take(8)), 64) as i64)
            && final(buf)@ == old(buf)@.skip(8),
        old(buf)@.len() < 8 ==> res == Err::<i64, ProtoError>(truncated(8, old(buf)@.len()))
            && final(buf)@ == old(buf)@,
        res matches Ok(v) ==> le_i(v as int, 8) == old(buf)@.take(8),
{
    proof { lemma_read_bytes(old(buf)@, 8); }
    proof { lemma_pow256_16(); }
    match read_le(buf, 8) {
        Ok(v) => {
            if v < 0x8000_0000_0000_0000 {
                Ok(v as i64)
            } else {
                Ok((v as i128 - 0x1_0000_0000_0000_0000) as i64)
            }
        },
        Err(e) => Err(e),
    }
}

/// Read a little-endian two's-complement `i128`, advancing `buf`.
pub fn read_i128(buf: &mut &[u8]) -> (res: Result<i128, ProtoError>)
    ensures
        old(buf)@.len() >= 16 ==> res == Ok::<i128, ProtoError>(signed_of(le_value(old(buf)@.take(16)), 128) as i128)
            && final(buf)@ == old(buf)@.skip(16),
        old(buf)@.len() < 16 ==> res == Err::<i128, ProtoError>(truncated(16, old(buf)@.len()))
            && final(buf)@ == old(buf)@,
        res matches Ok(v) ==> le_i(v as int, 16) == old(buf)@.take(16),
{
    proof { lemma_read_bytes(old(buf)@, 16); }
    proof { lemma_pow256_16(); }
    match read_le(buf, 16) {
        Ok(v) => {
            if v < 0x8000_0000_0000_0000_0000_0000_0000_0000 {
                Ok(v as i128)
            } else {
                let low = (v - 0x8000_0000_0000_0000_0000_0000_0000_0000) as i128;
                Ok(low + i128::MIN)
            }
        },
        Err(e) => Err(e),
    }
}

/// Append `v` as one byte.
pub fn write_u8(v: u8, out: &mut Vec<u8>)
    ensures
        final(out)@ == old(out)@ + le_u(v as int, 1),
{
    write_le(v as u128, 1, out)
}

/// Append `v` as a little-endian `u16`.
pub fn write_u16(v: u16, out: &mut Vec<u8>)
    ensures
        final(out)@ == old(out)@ + le_u(v as int, 2),
{
    write_le(v as u128, 2, out)
}

/// Append `v` as a little-endian `u32`.
pub fn write_u32(v: u32, out: &mut Vec<u8>)
    ensures
        final(out)@ == old(out)@ + le_u(v as int, 4),
{
    write_le(v as u128, 4, out)
}

/// The `u32` element count of an array of `n` items as it goes on the wire:
/// the count modulo 2^32, little-endian.
pub open spec fn count_bytes(n: nat) -> Seq<u8> {
    le_u((n % 0x1_0000_0000) as int, 4)
}

/// Append the `u32` element count of an array of `n` items (see
/// [`count_bytes`]); a count past `u32::MAX` keeps its low 32 bits.
pub fn write_count(n: usize, out: &mut Vec<u8>)
    ensures
        final(out)@ == old(out)@ + count_bytes(n as nat),
{
    let low: u32 = (n as u64 % 0x1_0000_0000u64) as u32;
    write_u32(low, out)
}

/// Append `v` as a little-endian `u64`.
pub fn write_u64(v: u64, out: &mut Vec<u8>)
    ensures
        final(out)@ == old(out)@ + le_u(v as int, 8),
{
    write_le(v as u128, 8, out)
}

/// Append `v` as a little-endian `u128`.
pub fn write_u128(v: u128, out: &mut Vec<u8>)
    ensures
        final(out)@ == old(out)@ + le_u(v as int, 16),
{
    write_le(v, 16, out)
}

/// Append `v` as a little-endian two's-complement `i8`.
pub fn write_i8(v: i8, out: &mut Vec<u8>)
    ensures
        final(out)@ == old(out)@ + le_i(v as int, 1),
{
    proof { lemma_pow256_16(); }
    let u: u128 = if v >= 0 { v as u128 } else { (v as i16 + 0x100) as u128 };
    write_le(u, 1, out)
}

/// Append `v` as a little-endian two's-complement `i16`.
pub fn write_i16(v: i16, out: &mut Vec<u8>)
    ensures
        final(out)@ == old(out)@ + le_i(v as int, 2),
{
    proof { lemma_pow256_16(); }
    let u: u128 = if v >= 0 { v as u128 } else { (v as i32 + 0x1_0000) as u128 };
    write_le(u, 2, out)
}

/// Append `v` as a little-endian two's-complement `i32`.
pub fn write_i32(v: i32, out: &mut Vec<u8>)
    ensures
        final(out)@ == old(out)@ + le_i(v as int, 4),
{
    proof { lemma_pow256_16(); }
    let u: u128 = if v >= 0 { v as u128 } else { (v as i64 + 0x1_0000_0000) as u128 };
    write_le(u, 4, out)
}

/// Append `v` as a little-endian two's-complement `i64`.
pub fn write_i64(v: i64, out: &mut Vec<u8>)
    ensures
        final(out)@ == old(out)@ + le_i(v as int, 8),
{
    proof { lemma_pow256_16(); }
    let u: u128 = if v >= 0 { v as u128 } else { (v as i128 + 0x1_0000_0000_0000_0000) as u128 };
    write_le(u, 8, out)
}

/// Append `v` as a little-endian two's-complement `i128`.
pub fn write_i128(v: i128, out: &mut Vec<u8>)
    ensures
        final(out)@ == old(out)@ + le_i(v as int, 16),
{
    proof { lemma_pow256_16(); }
    let u: u128 = if v >= 0 {
        v as u128
    } else {
        ((v - i128::MIN) as u128) + 0x8000_0000_0000_0000_0000_0000_0000_0000
    };
    write_le(u, 16, out)
}

// ---------------------------------------------------------------------------
// Count-prefixed arrays (u32 count, then that many elements)
// ---------------------------------------------------------------------------

/// Integer view of a `u16` sequence.
pub open spec fn u16_ints(v: Seq<u16>) -> Seq<int> {
    v.map_values(|x: u16| x as int)
}

/// Integer view of a `u32` sequence.
pub open spec fn u32_ints(v: Seq<u32>) -> Seq<int> {
    v.map_values(|x: u32| x as int)
}

/// The outcome of reading a count-prefixed array of `w`-byte elements from
/// `b`: `None` when the read succeeds, otherwise the error it reports and the
/// cursor it leaves behind.
pub open spec fn array_read_error(b: Seq<u8>, w: nat) -> Option<(ProtoError, Seq<u8>)> {
    if b.len() < 4 {
        Some((truncated(4, b.len()), b))
    } else {
        let count = le_value(b.take(4));
        let rest = b.skip(4);
        if count * w > usize::MAX {
            Some((ProtoError::Truncated { need: usize::MAX, have: rest.len() as usize }, rest))
        } else if rest.len() < count * w {
            Some((truncated(count * w, rest.len()), rest))
        } else {
            None
        }
    }
}

/// The `count` little-endian `u16`s stored at the front of `b`.
pub open spec fn u16s_of(b: Seq<u8>, count: nat) -> Seq<u16> {
    Seq::new(count, |i: int| le_value(b.subrange(2 * i, 2 * i + 2)) as u16)
}

/// The `count` little-endian `u32`s stored at the front of `b`.
pub open spec fn u32s_of(b: Seq<u8>, count: nat) -> Seq<u32> {
    Seq::new(count, |i: int| le_value(b.subrange(4 * i, 4 * i + 4)) as u32)
}

/// Element count declared by a count-prefixed array.
pub open spec fn array_count(b: Seq<u8>) -> nat {
    le_value(b.take(4))
}

/// Bytes a count-prefixed array of integers occupies on the wire.
pub open spec fn array_bytes(v: Seq<int>, w: nat) -> Seq<u8> {
    count_bytes(v.len()) + ints_bytes(v, w)
}

/// Read a `u32`-count-prefixed array of little-endian `u16`s.
///
/// A count that would run past the buffer is rejected before any element is
/// read, so a hostile count can neither over-read nor drive an allocation.
pub fn read_u16_array(buf: &mut &[u8]) -> (res: Result<Vec<u16>, ProtoError>)
    ensures
        array_read_error(old(buf)@, 2) matches Some((e, rest)) ==> res == Err::<Vec<u16>, ProtoError>(e)
            && final(buf)@ == rest,
        array_read_error(old(buf)@, 2) is None ==> (res matches Ok(v) && {
            let count = array_count(old(buf)@);
            let rest = old(buf)@.skip(4);
            &&& v@.len() == count
            &&& ints_bytes(u16_ints(v@), 2) == rest.take((count * 2) as int)
            &&& v@ == u16s_of(rest, count)
            &&& final(buf)@ == rest.skip((count * 2) as int)
        }),
{
    proof {
        if old(buf)@.len() >= 4 {
            lemma_le_value_bound(old(buf)@.take(4));
        }
        lemma_pow256_16();
    }
    let count = match read_u32(buf) {
        Ok(c) => c as usize,
        Err(e) => return Err(e),
    };
    let ghost rest = buf@;
    let need = match count.checked_mul(2) {
        Some(n) => n,
        None => return Err(ProtoError::Truncated { need: usize::MAX, have: buf.len() }),
    };
    if buf.len() < need {
        return Err(ProtoError::Truncated { need, have: buf.len() });
    }
    let mut v: Vec<u16> = Vec::new();
    let mut i: usize = 0;
    proof {
        assert(rest.take(0) =~= Seq::<u8>::empty());
        assert(rest.skip(0) =~= rest);
        assert(u16_ints(v@) =~= Seq::<int>::empty());
        assert(v@ =~= u16s_of(rest, 0));
    }
    while i < count
        invariant
            0 <= i <= count,
            need == count * 2,
            rest.len() >= need,
            v@.len() == i,
            ints_bytes(u16_ints(v@), 2) == rest.take(2 * i),
            v@ == u16s_of(rest, i as nat),
            buf@ == rest.skip(2 * i),
        decreases count - i,
    {
        let ghost before = buf@;
        let x = match read_u16(buf) {
            Ok(x) => x,
            Err(e) => return Err(e),
        };
        proof {
            lemma_ints_bytes_push(u16_ints(v@), x as int, 2);
            assert(u16_ints(v@.push(x)) =~= u16_ints(v@).push(x as int));
            assert(before.take(2) =~= rest.subrange(2 * i, 2 * i + 2));
            assert(rest.take(2 * i) + rest.subrange(2 * i, 2 * i + 2) =~= rest.take(2 * i + 2));
            assert(before.skip(2) =~= rest.skip(2 * i + 2));
            assert(v@.push(x) =~= u16s_of(rest, (i + 1) as nat));
        }
        v.push(x);
        i = i + 1;
    }
    Ok(v)
}

/// Read a `u32`-count-prefixed array of little-endian `u32`s.
pub fn read_u32_array(buf: &mut &[u8]) -> (res: Result<Vec<u32>, ProtoError>)
    ensures
        array_read_error(old(buf)@, 4) matches Some((e, rest)) ==> res == Err::<Vec<u32>, ProtoError>(e)
            && final(buf)@ == rest,
        array_read_error(old(buf)@, 4) is None ==> (res matches Ok(v) && {
            let count = array_count(old(buf)@);
            let rest = old(buf)@.skip(4);
            &&& v@.len() == count
            &&& ints_bytes(u32_ints(v@), 4) == rest.take((count * 4) as int)
            &&& v@ == u32s_of(rest, count)
            &&& final(buf)@ == rest.skip((count * 4) as int)
        }),
{
    proof {
        if old(buf)@.len() >= 4 {
            lemma_le_value_bound(old(buf)@.take(4));
        }
        lemma_pow256_16();
    }
    let count = match read_u32(buf) {
        Ok(c) => c as usize,
        Err(e) => return Err(e),
    };
    let ghost rest = buf@;
    let need = match count.checked_mul(4) {
        Some(n) => n,
        None => return Err(ProtoError::Truncated { need: usize::MAX, have: buf.len() }),
    };
    if buf.len() < need {
        return Err(ProtoError::Truncated { need, have: buf.len() });
    }
    let mut v: Vec<u32> = Vec::new();
    let mut i: usize = 0;
    proof {
        assert(rest.take(0) =~= Seq::<u8>::empty());
        assert(rest.skip(0) =~= rest);
        assert(u32_ints(v@) =~= Seq::<int>::empty());
        assert(v@ =~= u32s_of(rest, 0));
    }
    while i < count
        invariant
            0 <= i <= count,
            need == count * 4,
            rest.len() >= need,
            v@.len() == i,
            ints_bytes(u32_ints(v@), 4) == rest.take(4 * i),
            v@ == u32s_of(rest, i as nat),
            buf@ == rest.skip(4 * i),
        decreases count - i,
    {
        let ghost before = buf@;
        let x = match read_u32(buf) {
            Ok(x) => x,
            Err(e) => return Err(e),
        };
        proof {
            lemma_ints_bytes_push(u32_ints(v@), x as int, 4);
            assert(u32_ints(v@.push(x)) =~= u32_ints(v@).push(x as int));
            assert(before.take(4) =~= rest.subrange(4 * i, 4 * i + 4));
            assert(rest.take(4 * i) + rest.subrange(4 * i, 4 * i + 4) =~= rest.take(4 * i + 4));
            assert(before.skip(4) =~= rest.skip(4 * i + 4));
            assert(v@.push(x) =~= u32s_of(rest, (i + 1) as nat));
        }
        v.push(x);
        i = i + 1;
    }
    Ok(v)
}

/// Write a `u32`-count-prefixed array of `u16`s.
pub fn write_u16_array(v: &[u16], out: &mut Vec<u8>)
    ensures
        final(out)@ == old(out)@ + array_bytes(u16_ints(v@), 2),
{
    write_count(v.len(), out);
    let ghost start = out@;
    let mut i: usize = 0;
    proof {
        assert(u16_ints(v@.take(0)) =~= Seq::<int>::empty());
        assert(start + ints_bytes(u16_ints(v@.take(0)), 2) =~= start);
    }
    while i < v.len()
        invariant
            0 <= i <= v@.len(),
            out@ == start + ints_bytes(u16_ints(v@.take(i as int)), 2),
        decreases v@.len() - i,
    {
        proof {
            lemma_ints_bytes_push(u16_ints(v@.take(i as int)), v@[i as int] as int, 2);
            assert(u16_ints(v@.take(i + 1)) =~= u16_ints(v@.take(i as int)).push(v@[i as int] as int));
        }
        write_u16(v[i], out);
        i = i + 1;
        proof {
            assert(out@ =~= start + ints_bytes(u16_ints(v@.take(i as int)), 2));
        }
    }
    proof {
        assert(v@.take(v@.len() as int) =~= v@);
        assert(u16_ints(v@).len() == v@.len());
    }
}

/// Write a `u32`-count-prefixed array of `u32`s.
pub fn write_u32_array(v: &[u32], out: &mut Vec<u8>)
    ensures
        final(out)@ == old(out)@ + array_bytes(u32_ints(v@), 4),
{
    write_count(v.len(), out);
    let ghost start = out@;
    let mut i: usize = 0;
    proof {
        assert(u32_ints(v@.take(0)) =~= Seq::<int>::empty());
        assert(start + ints_bytes(u32_ints(v@.take(0)), 4) =~= start);
    }
    while i < v.len()
        invariant
            0 <= i <= v@.len(),
            out@ == start + ints_bytes(u32_ints(v@.take(i as int)), 4),
        decreases v@.len() - i,
    {
        proof {
            lemma_ints_bytes_push(u32_ints(v@.take(i as int)), v@[i as int] as int, 4);
            assert(u32_ints(v@.take(i + 1)) =~= u32_ints(v@.take(i as int)).push(v@[i as int] as int));
        }
        write_u32(v[i], out);
        i = i + 1;
        proof {
            assert(out@ =~= start + ints_bytes(u32_ints(v@.take(i as int)), 4));
        }
    }
    proof {
        assert(v@.take(v@.len() as int) =~= v@);
        assert(u32_ints(v@).len() == v@.len());
    }
}

} // verus!
