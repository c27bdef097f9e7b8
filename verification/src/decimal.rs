//! Decimal and hexadecimal rendering of integers, and decimal parsing.
use vstd::prelude::*;

use crate::strings::push_char;

verus! {

/// The ASCII digit for `d` in `0..16` (lowercase letters above 9).
pub open spec fn hex_digit_lower(d: nat) -> char {
    if d < 10 {
        (('0' as u32) + d) as char
    } else {
        (('a' as u32) + (d - 10)) as char
    }
}

/// The ASCII digit for `d` in `0..16` (uppercase letters above 9).
pub open spec fn hex_digit_upper(d: nat) -> char {
    if d < 10 {
        (('0' as u32) + d) as char
    } else {
        (('A' as u32) + (d - 10)) as char
    }
}

/// The `n` low-order decimal digits of `v`, most significant first.
pub open spec fn dec_digits(v: nat, n: nat) -> Seq<char>
    decreases n,
{
    if n == 0 {
        Seq::empty()
    } else {
        dec_digits(v / 10, (n - 1) as nat).push(hex_digit_lower(v % 10))
    }
}

/// Number of decimal digits needed for `v` (one for zero).
pub open spec fn dec_len(v: nat) -> nat
    decreases v,
{
    if v < 10 {
        1
    } else {
        1 + dec_len(v / 10)
    }
}

/// Decimal rendering of `v`, left-padded with zeros to at least `w` digits
/// (Rust's `{:0w}`).
pub open spec fn dec_pad(v: nat, w: nat) -> Seq<char> {
    dec_digits(v, if dec_len(v) < w { w } else { dec_len(v) })
}

/// Decimal rendering of `v` (Rust's `{}`).
pub open spec fn dec(v: nat) -> Seq<char> {
    dec_pad(v, 1)
}

/// Decimal rendering of a signed value, with a leading `-` when negative.
pub open spec fn dec_signed(v: int) -> Seq<char> {
    if v < 0 {
        seq!['-'] + dec((-v) as nat)
    } else {
        dec(v as nat)
    }
}

/// The `n` low-order hex digits of `v`, most significant first, lowercase.
pub open spec fn hex_digits_lower(v: nat, n: nat) -> Seq<char>
    decreases n,
{
    if n == 0 {
        Seq::empty()
    } else {
        hex_digits_lower(v / 16, (n - 1) as nat).push(hex_digit_lower(v % 16))
    }
}

/// The `n` low-order hex digits of `v`, most significant first, uppercase.
pub open spec fn hex_digits_upper(v: nat, n: nat) -> Seq<char>
    decreases n,
{
    if n == 0 {
        Seq::empty()
    } else {
        hex_digits_upper(v / 16, (n - 1) as nat).push(hex_digit_upper(v % 16))
    }
}

/// Number of hex digits needed for `v` (one for zero).
pub open spec fn hex_len(v: nat) -> nat
    decreases v,
{
    if v < 16 {
        1
    } else {
        1 + hex_len(v / 16)
    }
}

/// Lowercase hex rendering of `v` without leading zeros (Rust's `{:x}`).
pub open spec fn hex_lower(v: nat) -> Seq<char> {
    hex_digits_lower(v, hex_len(v))
}

/// Uppercase hex rendering of `v`, left-padded with zeros to at least `w`
/// digits (Rust's `{:0wX}`).
pub open spec fn hex_upper_pad(v: nat, w: nat) -> Seq<char> {
    hex_digits_upper(v, if hex_len(v) < w { w } else { hex_len(v) })
}

pub open spec fn is_digit(c: char) -> bool {
    '0' <= c <= '9'
}

/// Value of a run of decimal digits, most significant first.
pub open spec fn digits_value(s: Seq<char>) -> nat
    decreases s.len(),
{
    if s.len() == 0 {
        0
    } else {
        digits_value(s.drop_last()) * 10 + (s.last() as nat - '0' as nat) as nat
    }
}

pub open spec fn all_digits(s: Seq<char>) -> bool {
    forall|i: int| 0 <= i < s.len() ==> is_digit(#[trigger] s[i])
}

pub open spec fn pow_nat(b: nat, k: nat) -> nat
    decreases k,
{
    if k == 0 {
        1
    } else {
        b * pow_nat(b, (k - 1) as nat)
    }
}

pub proof fn lemma_dec_len_bound(v: nat, k: nat)
    requires
        k >= 1,
        v < pow_nat(10, k),
    ensures
        dec_len(v) <= k,
    decreases k,
{
    if v >= 10 {
        if k == 1 {
            assert(pow_nat(10, 1) == 10) by { reveal_with_fuel(pow_nat, 2); }
        } else {
            lemma_dec_len_bound(v / 10, (k - 1) as nat);
        }
    }
}

pub proof fn lemma_hex_len_bound(v: nat, k: nat)
    requires
        k >= 1,
        v < pow_nat(16, k),
    ensures
        hex_len(v) <= k,
    decreases k,
{
    if v >= 16 {
        if k == 1 {
            assert(pow_nat(16, 1) == 16) by { reveal_with_fuel(pow_nat, 2); }
        } else {
            lemma_hex_len_bound(v / 16, (k - 1) as nat);
        }
    }
}

pub proof fn lemma_dec_len_pos(v: nat)
    ensures
        dec_len(v) >= 1,
    decreases v,
{
    if v >= 10 {
        lemma_dec_len_pos(v / 10);
    }
}

pub proof fn lemma_dec_digits_len(v: nat, n: nat)
    ensures
        dec_digits(v, n).len() == n,
    decreases n,
{
    if n > 0 {
        lemma_dec_digits_len(v / 10, (n - 1) as nat);
    }
}

pub proof fn lemma_hex_digits_len(v: nat, n: nat)
    ensures
        hex_digits_lower(v, n).len() == n,
        hex_digits_upper(v, n).len() == n,
    decreases n,
{
    if n > 0 {
        lemma_hex_digits_len(v / 16, (n - 1) as nat);
    }
}

/// Decimal digits are digits, and they read back as the value mod `10^n`;
/// in particular a value of at most `n` digits reads back exactly.
pub proof fn lemma_dec_digits_value(v: nat, n: nat)
    ensures
        all_digits(dec_digits(v, n)),
        dec_len(v) <= n ==> digits_value(dec_digits(v, n)) == v,
    decreases n,
{
    if n > 0 {
        lemma_dec_digits_value(v / 10, (n - 1) as nat);
        let s = dec_digits(v, n);
        assert(s.drop_last() =~= dec_digits(v / 10, (n - 1) as nat));
        assert forall|i: int| 0 <= i < s.len() implies is_digit(#[trigger] s[i]) by {
            lemma_dec_digits_len(v / 10, (n - 1) as nat);
            if i < s.len() - 1 {
                assert(s[i] == dec_digits(v / 10, (n - 1) as nat)[i]);
            }
        }
        if dec_len(v) <= n {
            if v >= 10 {
                assert(dec_len(v / 10) <= n - 1);
            } else {
                assert(v / 10 == 0);
                lemma_dec_digits_zero((n - 1) as nat);
            }
        }
    }
}

/// `n` zero digits read back as zero.
pub proof fn lemma_dec_digits_zero(n: nat)
    ensures
        digits_value(dec_digits(0, n)) == 0,
    decreases n,
{
    if n > 0 {
        lemma_dec_digits_zero((n - 1) as nat);
        assert(dec_digits(0, n).drop_last() =~= dec_digits(0, (n - 1) as nat));
    }
}

/// Append the `n` low-order decimal digits of `v`.
pub fn push_dec_digits(out: &mut String, v: u64, n: usize)
    ensures
        final(out)@ == old(out)@ + dec_digits(v as nat, n as nat),
    decreases n,
{
    if n > 0 {
        push_dec_digits(out, v / 10, n - 1);
        let d = (v % 10) as u32;
        push_char(out, char_of_digit(d));
    }
    proof {
        assert(final(out)@ =~= old(out)@ + dec_digits(v as nat, n as nat)) by {
            if n == 0 {
                assert(dec_digits(v as nat, 0) =~= Seq::<char>::empty());
            }
        }
    }
}

fn char_of_digit(d: u32) -> (c: char)
    requires
        d < 16,
    ensures
        c == hex_digit_lower(d as nat),
{
    if d < 10 {
        char_from_ascii(0x30 + d)
    } else {
        char_from_ascii(0x61 + d - 10)
    }
}

fn char_of_digit_upper(d: u32) -> (c: char)
    requires
        d < 16,
    ensures
        c == hex_digit_upper(d as nat),
{
    if d < 10 {
        char_from_ascii(0x30 + d)
    } else {
        char_from_ascii(0x41 + d - 10)
    }
}

fn char_from_ascii(v: u32) -> (c: char)
    requires
        v < 128,
    ensures
        c == v as char,
        c as u32 == v,
{
    let c = v as u8 as char;
    c
}

/// Number of decimal digits of `v`.
pub fn dec_len_exec(v: u64) -> (n: usize)
    ensures
        n == dec_len(v as nat),
        n <= 20,
    decreases v,
{
    proof {
        assert(pow_nat(10, 20) == 100_000_000_000_000_000_000) by { reveal_with_fuel(pow_nat, 21); }
        lemma_dec_len_bound(v as nat, 20);
    }
    if v < 10 {
        1
    } else {
        1 + dec_len_exec(v / 10)
    }
}

/// Append `v` in decimal, zero-padded to at least `w` digits.
pub fn push_dec_pad(out: &mut String, v: u64, w: usize)
    ensures
        final(out)@ == old(out)@ + dec_pad(v as nat, w as nat),
{
    let len = dec_len_exec(v);
    let n = if len < w { w } else { len };
    push_dec_digits(out, v, n);
}

/// Append `v` in decimal.
pub fn push_dec(out: &mut String, v: u64)
    ensures
        final(out)@ == old(out)@ + dec(v as nat),
{
    push_dec_pad(out, v, 1)
}

/// Append a signed value in decimal.
pub fn push_dec_signed(out: &mut String, v: i64)
    ensures
        final(out)@ == old(out)@ + dec_signed(v as int),
{
    if v < 0 {
        push_char(out, '-');
        let m: u64 = if v == i64::MIN { 0x8000_0000_0000_0000 } else { (-v) as u64 };
        push_dec(out, m);
        proof {
            assert(final(out)@ =~= old(out)@ + dec_signed(v as int));
        }
    } else {
        push_dec(out, v as u64);
    }
}

/// Append the `n` low-order hex digits of `v`, lowercase.
pub fn push_hex_digits_lower(out: &mut String, v: u64, n: usize)
    ensures
        final(out)@ == old(out)@ + hex_digits_lower(v as nat, n as nat),
    decreases n,
{
    if n > 0 {
        push_hex_digits_lower(out, v / 16, n - 1);
        let d = (v % 16) as u32;
        push_char(out, char_of_digit(d));
    }
    proof {
        if n == 0 {
            assert(hex_digits_lower(v as nat, 0) =~= Seq::<char>::empty());
        }
        assert(final(out)@ =~= old(out)@ + hex_digits_lower(v as nat, n as nat));
    }
}

/// Append the `n` low-order hex digits of `v`, uppercase.
pub fn push_hex_digits_upper(out: &mut String, v: u64, n: usize)
    ensures
        final(out)@ == old(out)@ + hex_digits_upper(v as nat, n as nat),
    decreases n,
{
    if n > 0 {
        push_hex_digits_upper(out, v / 16, n - 1);
        let d = (v % 16) as u32;
        push_char(out, char_of_digit_upper(d));
    }
    proof {
        if n == 0 {
            assert(hex_digits_upper(v as nat, 0) =~= Seq::<char>::empty());
        }
        assert(final(out)@ =~= old(out)@ + hex_digits_upper(v as nat, n as nat));
    }
}

fn hex_len_exec(v: u64) -> (n: usize)
    ensures
        n == hex_len(v as nat),
        n <= 16,
    decreases v,
{
    proof {
        assert(pow_nat(16, 16) == 0x1_0000_0000_0000_0000) by { reveal_with_fuel(pow_nat, 17); }
        lemma_hex_len_bound(v as nat, 16);
    }
    if v < 16 {
        1
    } else {
        1 + hex_len_exec(v / 16)
    }
}

/// Append `v` in lowercase hex without leading zeros.
pub fn push_hex_lower(out: &mut String, v: u64)
    ensures
        final(out)@ == old(out)@ + hex_lower(v as nat),
{
    let n = hex_len_exec(v);
    push_hex_digits_lower(out, v, n)
}

/// Append `v` in uppercase hex, zero-padded to at least `w` digits.
pub fn push_hex_upper_pad(out: &mut String, v: u64, w: usize)
    ensures
        final(out)@ == old(out)@ + hex_upper_pad(v as nat, w as nat),
{
    let len = hex_len_exec(v);
    let n = if len < w { w } else { len };
    push_hex_digits_upper(out, v, n)
}

} // verus!
