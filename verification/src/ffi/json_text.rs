//! JSON text: string literals as `serde_json` writes them, numbers, booleans,
//! arrays, and the result envelope.
use vstd::prelude::*;
use vstd::string::StringExecFns;
use crate::decimal::{dec, dec_pad, hex_digit_lower, push_dec, push_dec_pad};
use crate::strings::{push_char, str_chars};

verus! {

/// How one character appears inside a JSON string literal: `"` and `\`
/// escaped, U+0008/09/0A/0C/0D as `\b \t \n \f \r`, any other character
/// below U+0020 as `\u00XX` in lowercase hex, everything else as itself.
pub open spec fn json_char_escape(c: char) -> Seq<char> {
    let v = c as u32;
    if c == '"' {
        seq!['\\', '"']
    } else if c == '\\' {
        seq!['\\', '\\']
    } else if v == 8 {
        seq!['\\', 'b']
    } else if v == 9 {
        seq!['\\', 't']
    } else if v == 10 {
        seq!['\\', 'n']
    } else if v == 12 {
        seq!['\\', 'f']
    } else if v == 13 {
        seq!['\\', 'r']
    } else if v < 0x20 {
        seq!['\\', 'u', '0', '0', hex_digit_lower((v / 16) as nat), hex_digit_lower((v % 16) as nat)]
    } else {
        seq![c]
    }
}

/// The escaped body of a JSON string literal.
pub open spec fn json_escape_body(s: Seq<char>) -> Seq<char>
    decreases s.len(),
{
    if s.len() == 0 {
        Seq::empty()
    } else {
        json_escape_body(s.drop_last()) + json_char_escape(s.last())
    }
}

/// The JSON string literal of `s`.
pub open spec fn json_str(s: Seq<char>) -> Seq<char> {
    seq!['"'] + json_escape_body(s) + seq!['"']
}

/// `true` or `false`.
pub open spec fn json_bool(b: bool) -> Seq<char> {
    if b {
        "true"@
    } else {
        "false"@
    }
}

/// The comma-separated decimal elements of a `u16` array.
pub open spec fn json_u16_items(a: Seq<u16>) -> Seq<char>
    decreases a.len(),
{
    if a.len() == 0 {
        Seq::empty()
    } else if a.len() == 1 {
        dec(a[0] as nat)
    } else {
        json_u16_items(a.drop_last()) + seq![','] + dec(a.last() as nat)
    }
}

/// The JSON array of a `u16` array; `[]` when empty.
pub open spec fn json_u16_array(a: Seq<u16>) -> Seq<char> {
    seq!['['] + json_u16_items(a) + seq![']']
}

/// The success envelope around `data`: empty error type and message.
pub open spec fn envelope_ok(data: Seq<char>) -> Seq<char> {
    "{\"errorType\":\"\",\"error\":\"\",\"data\":"@ + data + "}"@
}

/// The error envelope: the error type and message, and `null` data.
pub open spec fn envelope_error(error_type: Seq<char>, error: Seq<char>) -> Seq<char> {
    "{\"errorType\":"@ + json_str(error_type) + ",\"error\":"@ + json_str(error) + ",\"data\":null}"@
}

/// `serde_json::to_string` on a string: its JSON string literal (see
/// [`json_str`]), as `serde_json`'s escape table and `CompactFormatter`
/// write it. Serialising a string into memory does not fail.
#[verifier::external_body]
fn json_quote(s: &str) -> (r: String)
    ensures
        r@ == json_str(s@),
{
    serde_json::to_string(s).unwrap_or_default()
}

/// Append the JSON string literal of `s`.
pub fn push_json_str(out: &mut String, s: &str)
    ensures
        final(out)@ == old(out)@ + json_str(s@),
{
    let q = json_quote(s);
    out.append(q.as_str());
}

/// Append `true` or `false`.
pub fn push_bool(out: &mut String, b: bool)
    ensures
        final(out)@ == old(out)@ + json_bool(b),
{
    if b {
        out.append("true");
    } else {
        out.append("false");
    }
}

/// Append the JSON array of `a`.
pub fn push_u16_array(out: &mut String, a: &[u16])
    ensures
        final(out)@ == old(out)@ + json_u16_array(a@),
{
    out.append("[");
    proof {
        reveal_strlit("[");
        reveal_strlit("]");
        reveal_strlit(",");
    }
    let mut i: usize = 0;
    proof {
        assert(a@.take(0) =~= Seq::<u16>::empty());
        assert(out@ =~= old(out)@ + seq!['['] + json_u16_items(a@.take(0)));
    }
    while i < a.len()
        invariant
            0 <= i <= a@.len(),
            out@ == old(out)@ + seq!['['] + json_u16_items(a@.take(i as int)),
        decreases a@.len() - i,
    {
        if i > 0 {
            out.append(",");
        }
        push_dec(out, a[i] as u64);
        proof {
            reveal_strlit(",");
            let t = a@.take(i + 1);
            assert(t.drop_last() =~= a@.take(i as int));
            assert(t.last() == a@[i as int]);
            if i == 0 {
                assert(t.len() == 1);
            }
            assert(out@ =~= old(out)@ + seq!['['] + json_u16_items(t));
        }
        i = i + 1;
    }
    out.append("]");
    proof {
        assert(a@.take(a@.len() as int) =~= a@);
        assert(out@ =~= old(out)@ + json_u16_array(a@));
    }
}

/// `s` without its trailing `0` characters.
pub open spec fn strip_zeros(s: Seq<char>) -> Seq<char>
    decreases s.len(),
{
    if s.len() > 0 && s.last() == '0' {
        strip_zeros(s.drop_last())
    } else {
        s
    }
}

/// The six-digit lossy text of a number whose magnitude, times 10^6 and
/// rounded, is `scaled`: `-` for a negative number, the integer part, then,
/// unless the six fractional digits are all zero, `.` and those digits
/// without their trailing zeros (`100`, `9.63`, `0.000005`, `83.330971`).
pub open spec fn lossy_text_spec(negative: bool, scaled: u64) -> Seq<char> {
    (if negative { seq!['-'] } else { Seq::empty() }) + dec((scaled / 1_000_000) as nat) + (if scaled % 1_000_000
        == 0 {
        Seq::empty()
    } else {
        seq!['.'] + strip_zeros(dec_pad((scaled % 1_000_000) as nat, 6))
    })
}

/// Append `v` without its trailing `0` characters.
fn push_stripped(out: &mut String, v: &Vec<char>)
    ensures
        final(out)@ == old(out)@ + strip_zeros(v@),
{
    let mut n = v.len();
    proof {
        assert(v@.take(n as int) =~= v@);
    }
    while n > 0 && v[n - 1] == '0'
        invariant
            n <= v@.len(),
            strip_zeros(v@) == strip_zeros(v@.take(n as int)),
        decreases n,
    {
        proof {
            assert(v@.take(n as int).drop_last() =~= v@.take(n - 1));
        }
        n = n - 1;
    }
    proof {
        assert(strip_zeros(v@.take(n as int)) == v@.take(n as int));
    }
    let mut i: usize = 0;
    while i < n
        invariant
            i <= n <= v@.len(),
            out@ == old(out)@ + v@.take(i as int),
        decreases n - i,
    {
        push_char(out, v[i]);
        i = i + 1;
        proof {
            assert(out@ =~= old(out)@ + v@.take(i as int));
        }
    }
}

/// The lossy text of a scaled number (see [`lossy_text_spec`]).
pub fn lossy_text(negative: bool, scaled: u64) -> (s: String)
    ensures
        s@ == lossy_text_spec(negative, scaled),
{
    let mut out = String::new();
    if negative {
        push_char(&mut out, '-');
    }
    push_dec(&mut out, scaled / 1_000_000);
    let frac = scaled % 1_000_000;
    if frac != 0 {
        push_char(&mut out, '.');
        let mut digits = String::new();
        push_dec_pad(&mut digits, frac, 6);
        let v = str_chars(digits.as_str());
        push_stripped(&mut out, &v);
    }
    proof {
        assert(out@ =~= lossy_text_spec(negative, scaled));
    }
    out
}

/// Wrap `data` in the success envelope.
pub fn ok_json(data: &str) -> (s: String)
    ensures
        s@ == envelope_ok(data@),
{
    let mut s = "{\"errorType\":\"\",\"error\":\"\",\"data\":".to_owned();
    s.append(data);
    s.append("}");
    s
}

} // verus!
