//! PTP datetimes: `"YYYYMMDDThhmmss"` strings, read as UTC civil time.
//!
//! An instant is carried as whole seconds since the Unix epoch (`i64`). The
//! proleptic-Gregorian conversions are Howard Hinnant's `days_from_civil` /
//! `civil_from_days`, with 1970-01-01 as day 0.
use vstd::prelude::*;

use crate::decimal::{
    all_digits, dec_pad, digits_value, is_digit, push_dec_pad,
};
use crate::error::ProtoError;
use crate::ptp_string::encode_string;
use crate::strings::{push_char, str_chars, string_of_chars};
use crate::utf16::ptp_string_bytes;

verus! {

// ---------------------------------------------------------------------------
// Civil calendar
// ---------------------------------------------------------------------------

/// Days since 1970-01-01 of the proleptic-Gregorian date `y`-`m`-`d`.
pub open spec fn days_from_civil_spec(y: int, m: int, d: int) -> int {
    let y2 = if m <= 2 { y - 1 } else { y };
    let era = y2 / 400;
    let yoe = y2 - era * 400;
    let mp = if m > 2 { m - 3 } else { m + 9 };
    let doy = (153 * mp + 2) / 5 + d - 1;
    let doe = yoe * 365 + yoe / 4 - yoe / 100 + doy;
    era * 146097 + doe - 719468
}

/// The proleptic-Gregorian date `(y, m, d)` of a day count since 1970-01-01.
pub open spec fn civil_from_days_spec(z: int) -> (int, int, int) {
    let z2 = z + 719468;
    let era = z2 / 146097;
    let doe = z2 - era * 146097;
    let yoe = (doe - doe / 1460 + doe / 36524 - doe / 146096) / 365;
    let y = yoe + era * 400;
    let doy = doe - (365 * yoe + yoe / 4 - yoe / 100);
    let mp = (5 * doy + 2) / 153;
    let d = doy - (153 * mp + 2) / 5 + 1;
    let m = if mp < 10 { mp + 3 } else { mp - 9 };
    (if m <= 2 { y + 1 } else { y }, m, d)
}

/// Years the library handles in calendar arithmetic (far beyond any PTP
/// datetime, which carries four year digits).
pub open spec fn year_in_range(y: int) -> bool {
    -1_000_000_000_000 <= y <= 1_000_000_000_000
}

/// Floor division by a positive constant, for any sign of `a`.
fn floor_div(a: i64, b: i64) -> (q: i64)
    requires
        b > 0,
        a > i64::MIN + b,
    ensures
        q == a / b,
{
    if a >= 0 {
        a / b
    } else {
        let p = (-a + (b - 1)) / b;
        proof {
            let q = a as int / b as int;
            let r = a as int % b as int;
            vstd::arithmetic::div_mod::lemma_fundamental_div_mod(a as int, b as int);
            vstd::arithmetic::div_mod::lemma_mod_bound(a as int, b as int);
            assert(a as int == b as int * q + r);
            assert(-a + (b - 1) == (-q) * b + (b - 1 - r)) by (nonlinear_arith)
                requires a as int == b as int * q + r;
            vstd::arithmetic::div_mod::lemma_fundamental_div_mod_converse(
                -a + (b - 1), b as int, -q, b - 1 - r);
        }
        -p
    }
}

/// Days since 1970-01-01 for a proleptic-Gregorian `y`-`m`-`d`.
pub fn days_from_civil(y: i64, m: i64, d: i64) -> (days: i64)
    requires
        year_in_range(y as int),
        1 <= m <= 12,
        1 <= d <= 31,
    ensures
        days == days_from_civil_spec(y as int, m as int, d as int),
{
    let y2 = if m <= 2 { y - 1 } else { y };
    let era = floor_div(y2, 400);
    let yoe = y2 - era * 400;
    proof {
        vstd::arithmetic::div_mod::lemma_fundamental_div_mod(y2 as int, 400);
        vstd::arithmetic::div_mod::lemma_mod_bound(y2 as int, 400);
    }
    let mp = if m > 2 { m - 3 } else { m + 9 };
    let doy = (153 * mp + 2) / 5 + d - 1;
    let doe = yoe * 365 + yoe / 4 - yoe / 100 + doy;
    era * 146097 + doe - 719468
}

/// Proleptic-Gregorian `(y, m, d)` for a day count since 1970-01-01.
pub fn civil_from_days(z: i64) -> (ymd: (i64, i64, i64))
    requires
        -200_000_000_000_000 <= z <= 200_000_000_000_000,
    ensures
        ymd == ({
            let t = civil_from_days_spec(z as int);
            (t.0 as i64, t.1 as i64, t.2 as i64)
        }),
        ({
            let t = civil_from_days_spec(z as int);
            &&& 1 <= t.1 <= 12
            &&& 1 <= t.2 <= 31
            &&& year_in_range(t.0)
            &&& z >= 0 ==> t.0 >= 0
        }),
{
    let z2 = z + 719468;
    let era = floor_div(z2, 146097);
    let doe = z2 - era * 146097;
    proof {
        vstd::arithmetic::div_mod::lemma_fundamental_div_mod(z2 as int, 146097);
        vstd::arithmetic::div_mod::lemma_mod_bound(z2 as int, 146097);
        lemma_civil_fields(doe as int);
    }
    let yoe = (doe - doe / 1460 + doe / 36524 - doe / 146096) / 365;
    let y = yoe + era * 400;
    let doy = doe - (365 * yoe + yoe / 4 - yoe / 100);
    let mp = (5 * doy + 2) / 153;
    let d = doy - (153 * mp + 2) / 5 + 1;
    let m = if mp < 10 { mp + 3 } else { mp - 9 };
    (if m <= 2 { y + 1 } else { y }, m, d)
}

/// Within one 400-year era, the year-of-era is in `0..400`, the day-of-year
/// in `0..366`, and the derived month and day are in range.
pub proof fn lemma_civil_fields(doe: int)
    requires
        0 <= doe < 146097,
    ensures
        ({
            let yoe = (doe - doe / 1460 + doe / 36524 - doe / 146096) / 365;
            let doy = doe - (365 * yoe + yoe / 4 - yoe / 100);
            let mp = (5 * doy + 2) / 153;
            let d = doy - (153 * mp + 2) / 5 + 1;
            &&& 0 <= yoe <= 399
            &&& 0 <= doy <= 365
            &&& 0 <= mp <= 11
            &&& 1 <= d <= 31
            &&& doy == (153 * mp + 2) / 5 + d - 1
        }),
{
}

/// Converting a day count to a date and back gives the day count.
pub proof fn lemma_civil_roundtrip(z: int)
    ensures
        ({
            let t = civil_from_days_spec(z);
            days_from_civil_spec(t.0, t.1, t.2) == z
        }),
{
    let z2 = z + 719468;
    let era = z2 / 146097;
    let doe = z2 - era * 146097;
    vstd::arithmetic::div_mod::lemma_fundamental_div_mod(z2, 146097);
    vstd::arithmetic::div_mod::lemma_mod_bound(z2, 146097);
    lemma_civil_fields(doe);
    let yoe = (doe - doe / 1460 + doe / 36524 - doe / 146096) / 365;
    let y2 = yoe + era * 400;
    vstd::arithmetic::div_mod::lemma_fundamental_div_mod_converse(y2, 400, era, yoe);
}

// ---------------------------------------------------------------------------
// Wire strings
// ---------------------------------------------------------------------------

/// Seconds since the epoch of the last instant with a four-digit year
/// (9999-12-31T23:59:59).
pub open spec fn max_four_digit_year_secs() -> int {
    253_402_300_799
}

/// `"YYYYMMDDThhmmss"` for a non-negative instant, in UTC civil time.
pub open spec fn ptp_datetime_chars(t: int) -> Seq<char> {
    let days = t / 86400;
    let rem = t % 86400;
    let ymd = civil_from_days_spec(days);
    dec_pad(ymd.0 as nat, 4) + dec_pad(ymd.1 as nat, 2) + dec_pad(ymd.2 as nat, 2) + seq!['T']
        + dec_pad((rem / 3600) as nat, 2) + dec_pad(((rem % 3600) / 60) as nat, 2)
        + dec_pad((rem % 60) as nat, 2)
}

/// The string a datetime field carries: empty for an instant before the
/// epoch, else its `"YYYYMMDDThhmmss"` form.
pub open spec fn datetime_field_chars(t: int) -> Seq<char> {
    if t < 0 {
        Seq::empty()
    } else {
        ptp_datetime_chars(t)
    }
}

/// Strip every trailing `c`.
pub open spec fn trim_end(s: Seq<char>, c: char) -> Seq<char>
    decreases s.len(),
{
    if s.len() > 0 && s.last() == c {
        trim_end(s.drop_last(), c)
    } else {
        s
    }
}

/// `"YYYYMMDDThhmmss"` (exactly 15 characters) as UTC seconds; `None` when
/// the shape or a field range is wrong.
pub open spec fn parse_basic(s: Seq<char>) -> Option<int> {
    if s.len() == 15 && s[8] == 'T' && all_digits(s.subrange(0, 4)) && all_digits(s.subrange(4, 6))
        && all_digits(s.subrange(6, 8)) && all_digits(s.subrange(9, 11)) && all_digits(
        s.subrange(11, 13),
    ) && all_digits(s.subrange(13, 15)) {
        let y = digits_value(s.subrange(0, 4)) as int;
        let mo = digits_value(s.subrange(4, 6)) as int;
        let d = digits_value(s.subrange(6, 8)) as int;
        let h = digits_value(s.subrange(9, 11)) as int;
        let mi = digits_value(s.subrange(11, 13)) as int;
        let se = digits_value(s.subrange(13, 15)) as int;
        if 1 <= mo <= 12 && 1 <= d <= 31 && h <= 23 && mi <= 59 && se <= 60 {
            Some(days_from_civil_spec(y, mo, d) * 86400 + h * 3600 + mi * 60 + se)
        } else {
            None
        }
    } else {
        None
    }
}

/// `"YYYYMMDDThhmmss±hhmm"` (exactly 20 characters): the wall clock shifted
/// by the numeric zone offset to UTC seconds.
pub open spec fn parse_with_zone(s: Seq<char>) -> Option<int> {
    if s.len() == 20 && (s[15] == '+' || s[15] == '-') && all_digits(s.subrange(16, 18))
        && all_digits(s.subrange(18, 20)) {
        match parse_basic(s.subrange(0, 15)) {
            Some(base) => {
                let oh = digits_value(s.subrange(16, 18)) as int;
                let om = digits_value(s.subrange(18, 20)) as int;
                let sign: int = if s[15] == '+' { 1 } else { -1 };
                if oh <= 23 && om <= 59 {
                    Some(base - sign * (oh * 3600 + om * 60))
                } else {
                    None
                }
            },
            None => None,
        }
    } else {
        None
    }
}

/// The instant a PTP datetime string denotes, after the vendor tolerances:
/// the empty string is the epoch; trailing `.` (Samsung) then trailing `Z`
/// (Jolla) are stripped; the basic form is tried, then the zoned form (Nokia).
pub open spec fn datetime_value(s: Seq<char>) -> Option<int> {
    if s.len() == 0 {
        Some(0)
    } else {
        let t = trim_end(trim_end(s, '.'), 'Z');
        match parse_basic(t) {
            Some(x) => Some(x),
            None => parse_with_zone(t),
        }
    }
}

/// Whether `e` is the `BadDate` error carrying `s`.
pub open spec fn is_bad_date(e: ProtoError, s: Seq<char>) -> bool {
    e matches ProtoError::BadDate(m) && m@ == s
}

/// Value of the digits `v[lo..hi]`, or `None` if any is not a digit.
fn parse_digits(v: &Vec<char>, lo: usize, hi: usize) -> (res: Option<i64>)
    requires
        lo < hi <= v@.len(),
        hi - lo <= 4,
    ensures
        all_digits(v@.subrange(lo as int, hi as int)) ==> res == Some(
            digits_value(v@.subrange(lo as int, hi as int)) as i64,
        ),
        !all_digits(v@.subrange(lo as int, hi as int)) ==> res is None,
        res matches Some(x) ==> 0 <= x < 10000,
        all_digits(v@.subrange(lo as int, hi as int)) ==> digits_value(v@.subrange(lo as int, hi as int)) < 10000,
{
    let mut acc: i64 = 0;
    let mut i = lo;
    while i < hi
        invariant
            lo <= i <= hi <= v@.len(),
            hi - lo <= 4,
            all_digits(v@.subrange(lo as int, i as int)),
            acc == digits_value(v@.subrange(lo as int, i as int)),
            0 <= acc < crate::decimal::pow_nat(10, (i - lo) as nat),
        decreases hi - i,
    {
        let c = v[i];
        if !('0' <= c && c <= '9') {
            proof {
                assert(!is_digit(v@.subrange(lo as int, hi as int)[i - lo]));
            }
            return None;
        }
        proof {
            assert(v@.subrange(lo as int, i + 1).drop_last() =~= v@.subrange(lo as int, i as int));
            reveal_with_fuel(crate::decimal::pow_nat, 5);
        }
        acc = acc * 10 + (c as u32 - '0' as u32) as i64;
        i = i + 1;
        proof {
            assert forall|k: int| 0 <= k < (i - lo) implies is_digit(
                #[trigger] v@.subrange(lo as int, i as int)[k],
            ) by {
                if k < i - 1 - lo {
                    assert(v@.subrange(lo as int, i as int)[k] == v@.subrange(lo as int, i - 1)[k]);
                }
            }
        }
    }
    proof {
        reveal_with_fuel(crate::decimal::pow_nat, 5);
    }
    Some(acc)
}

/// `"YYYYMMDDThhmmss"` in `v[0..15]` (when `v` has exactly `len` = 15
/// characters) as UTC seconds.
fn parse_ptp_datetime(v: &Vec<char>, len: usize) -> (res: Option<i64>)
    requires
        len <= v@.len(),
    ensures
        res == (match parse_basic(v@.take(len as int)) {
            Some(x) => Some(x as i64),
            None => None::<i64>,
        }),
        res matches Some(x) ==> -100_000_000_000 <= x <= 400_000_000_000,
        parse_basic(v@.take(len as int)) matches Some(x) ==> -100_000_000_000 <= x <= 400_000_000_000,
{
    let ghost s = v@.take(len as int);
    if len != 15 || v[8] != 'T' {
        return None;
    }
    proof {
        assert(s.subrange(0, 4) =~= v@.subrange(0, 4));
        assert(s.subrange(4, 6) =~= v@.subrange(4, 6));
        assert(s.subrange(6, 8) =~= v@.subrange(6, 8));
        assert(s.subrange(9, 11) =~= v@.subrange(9, 11));
        assert(s.subrange(11, 13) =~= v@.subrange(11, 13));
        assert(s.subrange(13, 15) =~= v@.subrange(13, 15));
    }
    let y = match parse_digits(v, 0, 4) {
        Some(x) => x,
        None => return None,
    };
    let mo = match parse_digits(v, 4, 6) {
        Some(x) => x,
        None => return None,
    };
    let d = match parse_digits(v, 6, 8) {
        Some(x) => x,
        None => return None,
    };
    let h = match parse_digits(v, 9, 11) {
        Some(x) => x,
        None => return None,
    };
    let mi = match parse_digits(v, 11, 13) {
        Some(x) => x,
        None => return None,
    };
    let se = match parse_digits(v, 13, 15) {
        Some(x) => x,
        None => return None,
    };
    civil_to_unix_secs(y, mo, d, h, mi, se)
}

/// A civil UTC date and time as Unix seconds; `None` when a field is out of
/// its coarse range (month 1..=12, day 1..=31, hour ..=23, minute ..=59,
/// second ..=60).
fn civil_to_unix_secs(y: i64, mo: i64, d: i64, h: i64, mi: i64, se: i64) -> (res: Option<i64>)
    requires
        0 <= y <= 9999,
        0 <= mo <= 9999,
        0 <= d <= 9999,
        0 <= h <= 9999,
        0 <= mi <= 9999,
        0 <= se <= 9999,
    ensures
        res == (if 1 <= mo <= 12 && 1 <= d <= 31 && h <= 23 && mi <= 59 && se <= 60 {
            Some((days_from_civil_spec(y as int, mo as int, d as int) * 86400 + h * 3600 + mi * 60 + se) as i64)
        } else {
            None::<i64>
        }),
        res matches Some(x) ==> -100_000_000_000 <= x <= 400_000_000_000,
{
    if !(1 <= mo && mo <= 12) || !(1 <= d && d <= 31) || h > 23 || mi > 59 || se > 60 {
        return None;
    }
    let days = days_from_civil(y, mo, d);
    proof {
        lemma_days_from_civil_bounds(y as int, mo as int, d as int);
    }
    Some(days * 86400 + h * 3600 + mi * 60 + se)
}

/// `all_digits` holds of a sequence exactly when it holds of both halves.
pub proof fn lemma_all_digits_split(s: Seq<char>, k: int)
    requires
        0 <= k <= s.len(),
    ensures
        all_digits(s) <==> (all_digits(s.subrange(0, k)) && all_digits(s.subrange(k, s.len() as int))),
{
    if all_digits(s.subrange(0, k)) && all_digits(s.subrange(k, s.len() as int)) {
        assert forall|i: int| 0 <= i < s.len() implies is_digit(#[trigger] s[i]) by {
            if i < k {
                assert(s[i] == s.subrange(0, k)[i]);
            } else {
                assert(s[i] == s.subrange(k, s.len() as int)[i - k]);
            }
        }
    }
    if all_digits(s) {
        assert forall|i: int| 0 <= i < k implies is_digit(#[trigger] s.subrange(0, k)[i]) by {
            assert(s[i] == s.subrange(0, k)[i]);
        }
        assert forall|i: int| 0 <= i < s.len() - k implies is_digit(
            #[trigger] s.subrange(k, s.len() as int)[i],
        ) by {
            assert(s[i + k] == s.subrange(k, s.len() as int)[i]);
        }
    }
}

pub proof fn lemma_days_from_civil_bounds(y: int, m: int, d: int)
    requires
        0 <= y <= 9999,
        1 <= m <= 12,
        1 <= d <= 31,
    ensures
        -800_000 <= days_from_civil_spec(y, m, d) <= 3_000_000,
{
}

/// `"YYYYMMDDThhmmss±hhmm"` in `v` as UTC seconds (see
/// [`parse_with_zone`]).
fn parse_ptp_datetime_tz(v: &Vec<char>) -> (res: Option<i64>)
    ensures
        res == (match parse_with_zone(v@) {
            Some(x) => Some(x as i64),
            None => None::<i64>,
        }),
{
    if v.len() != 20 {
        return None;
    }
    let sign_char = v[15];
    if sign_char != '+' && sign_char != '-' {
        return None;
    }
    proof {
        assert(v@.take(15) =~= v@.subrange(0, 15));
    }
    let oh = match parse_digits(v, 16, 18) {
        Some(x) => x,
        None => return None,
    };
    let om = match parse_digits(v, 18, 20) {
        Some(x) => x,
        None => return None,
    };
    let base = match parse_ptp_datetime(v, 15) {
        Some(b) => b,
        None => return None,
    };
    if oh > 23 || om > 59 {
        return None;
    }
    let off = oh * 3600 + om * 60;
    proof {
        let sign: int = if v@[15] == '+' { 1 } else { -1 };
        if v@[15] == '+' {
            assert(sign * (off as int) == off as int);
        } else {
            assert(sign == -1);
            assert(sign * (off as int) == -(off as int)) by (nonlinear_arith)
                requires sign == -1;
        }
        assert(parse_basic(v@.subrange(0, 15)) == Some(base as int));
    }
    if sign_char == '+' {
        Some(base - off)
    } else {
        Some(base + off)
    }
}

/// Parse a PTP datetime string into seconds since the epoch.
///
/// The empty string is the epoch. Trailing `.` then trailing `Z` are
/// stripped; then `"YYYYMMDDThhmmss"` is read as UTC, falling back to
/// `"YYYYMMDDThhmmss±hhmm"`. Anything else is `BadDate` carrying the input.
pub fn decode_datetime(s: &str) -> (res: Result<i64, ProtoError>)
    ensures
        datetime_value(s@) matches Some(x) ==> res == Ok::<i64, ProtoError>(x as i64),
        datetime_value(s@) is None ==> (res matches Err(e) && is_bad_date(e, s@)),
{
    let chars = str_chars(s);
    if chars.len() == 0 {
        return Ok(0);
    }
    let mut t = chars.clone();
    let ghost orig = t@;
    proof {
        assert(t@ == s@);
    }
    while t.len() > 0 && t[t.len() - 1] == '.'
        invariant
            trim_end(t@, '.') == trim_end(orig, '.'),
        decreases t@.len(),
    {
        proof {
            assert(t@.drop_last() == t@.subrange(0, t@.len() - 1));
        }
        t.pop();
    }
    let ghost dotless = t@;
    while t.len() > 0 && t[t.len() - 1] == 'Z'
        invariant
            trim_end(t@, 'Z') == trim_end(dotless, 'Z'),
        decreases t@.len(),
    {
        t.pop();
    }
    proof {
        assert(t@.take(t@.len() as int) =~= t@);
    }
    let n = t.len();
    match parse_ptp_datetime(&t, n) {
        Some(x) => return Ok(x),
        None => {},
    }
    match parse_ptp_datetime_tz(&t) {
        Some(x) => Ok(x),
        None => Err(ProtoError::BadDate(string_of_chars(&chars))),
    }
}

/// Format seconds since the epoch as `"YYYYMMDDThhmmss"` (UTC civil time).
fn format_ptp_datetime(secs: i64) -> (text: String)
    requires
        secs >= 0,
    ensures
        text@ == ptp_datetime_chars(secs as int),
{
    let days = secs / 86400;
    let rem = secs % 86400;
    let (y, mo, d) = civil_from_days(days);
    let mut out = String::new();
    push_dec_pad(&mut out, y as u64, 4);
    push_dec_pad(&mut out, mo as u64, 2);
    push_dec_pad(&mut out, d as u64, 2);
    push_char(&mut out, 'T');
    push_dec_pad(&mut out, (rem / 3600) as u64, 2);
    push_dec_pad(&mut out, ((rem % 3600) / 60) as u64, 2);
    push_dec_pad(&mut out, (rem % 60) as u64, 2);
    proof {
        assert(out@ =~= ptp_datetime_chars(secs as int));
    }
    out
}

/// Encode a PTP datetime into `out`: an instant before the epoch is the empty
/// string, any other is `"YYYYMMDDThhmmss"` in UTC.
pub fn encode_datetime(t: i64, out: &mut Vec<u8>)
    ensures
        final(out)@ == old(out)@ + ptp_string_bytes(datetime_field_chars(t as int)),
{
    if t < 0 {
        encode_string("", out);
        proof {
            reveal_strlit("");
        }
    } else {
        let text = format_ptp_datetime(t);
        encode_string(text.as_str(), out);
    }
}

} // verus!
