//! The PTP datetime text round trip.
use vstd::prelude::*;
use crate::datetime::{
    civil_from_days_spec, datetime_value, days_from_civil_spec, lemma_civil_fields,
    lemma_civil_roundtrip, max_four_digit_year_secs, parse_basic, ptp_datetime_chars, trim_end,
};
use crate::decimal::{
    all_digits, dec_digits, dec_pad, digits_value, is_digit, lemma_dec_digits_len,
    lemma_dec_digits_value, lemma_dec_len_bound, pow_nat,
};

verus! {

/// A field of at most `w` digits pads to exactly `w` digits that read back
/// as its value.
proof fn lemma_pad_field(v: nat, w: nat)
    requires
        w == 2 || w == 4,
        v < pow_nat(10, w),
    ensures
        dec_pad(v, w).len() == w,
        all_digits(dec_pad(v, w)),
        digits_value(dec_pad(v, w)) == v,
{
    lemma_dec_len_bound(v, w);
    assert(dec_pad(v, w) == dec_digits(v, w));
    lemma_dec_digits_len(v, w);
    lemma_dec_digits_value(v, w);
}

/// Days up to 9999-12-31 fall in years 0..=9999.
proof fn lemma_civil_year_bound(z: int)
    requires
        0 <= z <= 2_932_896,
    ensures
        ({
            let t = civil_from_days_spec(z);
            &&& 0 <= t.0 <= 9999
            &&& 1 <= t.1 <= 12
            &&& 1 <= t.2 <= 31
        }),
{
    let z2 = z + 719468;
    let era = z2 / 146097;
    let doe = z2 - era * 146097;
    vstd::arithmetic::div_mod::lemma_fundamental_div_mod(z2, 146097);
    vstd::arithmetic::div_mod::lemma_mod_bound(z2, 146097);
    lemma_civil_fields(doe);
    assert(4 <= era <= 24) by (nonlinear_arith)
        requires
            719468 <= z2 <= 3652364,
            z2 == 146097 * era + (z2 - era * 146097),
            0 <= z2 - era * 146097 < 146097,
    ;
    let yoe = (doe - doe / 1460 + doe / 36524 - doe / 146096) / 365;
    let doy = doe - (365 * yoe + yoe / 4 - yoe / 100);
    let mp = (5 * doy + 2) / 153;
    if era == 24 && yoe == 399 {
        assert(doe <= 146036);
        assert(doy <= 305);
        assert(mp <= 9);
    }
}

/// Trimming a non-digit off the end of text that ends in a digit changes
/// nothing.
proof fn lemma_trim_digit_end(s: Seq<char>, c: char)
    requires
        s.len() > 0,
        is_digit(s.last()),
        !is_digit(c),
    ensures
        trim_end(s, c) == s,
{
}

/// Reading back the `YYYYMMDDThhmmss` text of an instant gives the instant,
/// for every instant from the epoch through the end of year 9999.
pub proof fn lemma_datetime_roundtrip(t: int)
    requires
        0 <= t <= max_four_digit_year_secs(),
    ensures
        ptp_datetime_chars(t).len() == 15,
        datetime_value(ptp_datetime_chars(t)) == Some(t),
{
    let days = t / 86400;
    let rem = t % 86400;
    vstd::arithmetic::div_mod::lemma_fundamental_div_mod(t, 86400);
    vstd::arithmetic::div_mod::lemma_mod_bound(t, 86400);
    assert(days <= 2_932_896);
    lemma_civil_year_bound(days);
    lemma_civil_roundtrip(days);
    let ymd = civil_from_days_spec(days);
    let h = rem / 3600;
    let r2 = rem % 3600;
    let mi = r2 / 60;
    let se = rem % 60;
    vstd::arithmetic::div_mod::lemma_fundamental_div_mod(rem, 3600);
    vstd::arithmetic::div_mod::lemma_fundamental_div_mod(r2, 60);
    vstd::arithmetic::div_mod::lemma_mod_bound(rem, 3600);
    vstd::arithmetic::div_mod::lemma_mod_bound(r2, 60);
    vstd::arithmetic::div_mod::lemma_mod_mod(rem, 60, 60);
    assert(rem % 60 == r2 % 60) by {
        vstd::arithmetic::div_mod::lemma_mod_mod(rem, 60, 60);
        vstd::arithmetic::div_mod::lemma_mod_breakdown(rem, 60, 60);
    }
    assert(h <= 23);
    assert(mi <= 59);
    assert(rem == h * 3600 + mi * 60 + se);
    assert(pow_nat(10, 4) == 10000 && pow_nat(10, 2) == 100) by {
        reveal_with_fuel(pow_nat, 5);
    }
    lemma_pad_field(ymd.0 as nat, 4);
    lemma_pad_field(ymd.1 as nat, 2);
    lemma_pad_field(ymd.2 as nat, 2);
    lemma_pad_field(h as nat, 2);
    lemma_pad_field(mi as nat, 2);
    lemma_pad_field(se as nat, 2);
    let a = dec_pad(ymd.0 as nat, 4);
    let b = dec_pad(ymd.1 as nat, 2);
    let c = dec_pad(ymd.2 as nat, 2);
    let d = dec_pad(h as nat, 2);
    let e = dec_pad(mi as nat, 2);
    let f = dec_pad(se as nat, 2);
    let s = ptp_datetime_chars(t);
    assert(s == a + b + c + seq!['T'] + d + e + f);
    assert(s.len() == 15);
    assert(s.subrange(0, 4) =~= a);
    assert(s.subrange(4, 6) =~= b);
    assert(s.subrange(6, 8) =~= c);
    assert(s[8] == 'T');
    assert(s.subrange(9, 11) =~= d);
    assert(s.subrange(11, 13) =~= e);
    assert(s.subrange(13, 15) =~= f);
    assert(s.last() == f[1]);
    assert(is_digit(f[1]));
    lemma_trim_digit_end(s, '.');
    lemma_trim_digit_end(s, 'Z');
    assert(parse_basic(s) == Some(days_from_civil_spec(ymd.0, ymd.1, ymd.2) * 86400 + h * 3600 + mi * 60 + se));
}

} // verus!
