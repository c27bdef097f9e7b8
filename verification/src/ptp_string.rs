//! PTP strings: count-prefixed UTF-16LE with a NUL terminator.
use vstd::prelude::*;
use vstd::std_specs::iter::IteratorSpec;

use crate::codec::{
    ints_bytes, le_value, lemma_ints_bytes_push, read_u16, read_u8, u16_ints, write_u16,
};
use crate::error::ProtoError;
use crate::strings::{char_from_u32, push_char};
use crate::utf16::{
    lemma_utf16_encode_push, lemma_utf16_of_char_shape, ptp_string_bytes, ptp_string_read, ptp_units,
    units_of, utf16_decode, utf16_encode,
};

verus! {

/// UTF-16 code units of `s`, capped at 253, never ending on a lone high
/// surrogate.
fn content_units(s: &str) -> (units: Vec<u16>)
    ensures
        units@ == ptp_units(s@),
{
    let mut units: Vec<u16> = Vec::new();
    let ghost full = utf16_encode(s@);
    let ghost mut done: Seq<char> = Seq::empty();
    let mut it = s.chars();
    broadcast use vstd::string::axiom_spec_iter;
    proof {
        assert(utf16_encode(done) =~= Seq::<u16>::empty());
    }
    loop
        invariant
            it.remaining() == s@.skip(done.len() as int),
            done == s@.take(done.len() as int),
            done.len() <= s@.len(),
            units@ == (if utf16_encode(done).len() <= 253 {
                utf16_encode(done)
            } else {
                utf16_encode(done).take(253)
            }),
        ensures
            units@ == (if utf16_encode(s@).len() <= 253 {
                utf16_encode(s@)
            } else {
                utf16_encode(s@).take(253)
            }),
        decreases s@.len() - done.len(),
    {
        let ghost before = it;
        match it.next() {
            Some(c) => {
                proof {
                    lemma_utf16_encode_push(done, c);
                    lemma_utf16_of_char_shape(c);
                }
                let v = c as u32;
                if v < 0x10000 {
                    if units.len() < 253 {
                        units.push(v as u16);
                    }
                } else {
                    let w = v - 0x10000;
                    if units.len() < 253 {
                        units.push((0xD800 + w / 0x400) as u16);
                    }
                    if units.len() < 253 {
                        units.push((0xDC00 + w % 0x400) as u16);
                    }
                }
                proof {
                    assert(s@.skip(done.len() as int)[0] == c);
                    done = done.push(c);
                    assert(done =~= s@.take(done.len() as int));
                    assert(it.remaining() =~= s@.skip(done.len() as int));
                    let e = utf16_encode(done);
                    assert(units@ =~= (if e.len() <= 253 { e } else { e.take(253) }));
                }
            },
            None => {
                proof {
                    assert(done =~= s@);
                }
                break;
            },
        }
    }
    if units.len() == 253 && 0xD800 <= units[252] && units[252] <= 0xDBFF {
        units.pop();
    }
    proof {
        let u = utf16_encode(s@);
        assert(units@ =~= ptp_units(s@));
    }
    units
}

/// Encode a PTP string into `out`.
///
/// Real UTF-16: code points above U+FFFF become surrogate pairs. Content is
/// capped at 253 units (never splitting a pair) so the one-byte count can
/// never wrap.
pub fn encode_string(s: &str, out: &mut Vec<u8>)
    ensures
        final(out)@ == old(out)@ + ptp_string_bytes(s@),
{
    if s.is_empty() {
        out.push(0);
        return;
    }
    let units = content_units(s);
    proof {
        lemma_utf16_encode_len_pos(s@);
    }
    out.push((units.len() + 1) as u8);
    let ghost start = out@;
    let mut i: usize = 0;
    proof {
        assert(u16_ints(units@.take(0)) =~= Seq::<int>::empty());
        assert(start + ints_bytes(u16_ints(units@.take(0)), 2) =~= start);
    }
    while i < units.len()
        invariant
            0 <= i <= units@.len(),
            out@ == start + ints_bytes(u16_ints(units@.take(i as int)), 2),
        decreases units@.len() - i,
    {
        proof {
            lemma_ints_bytes_push(u16_ints(units@.take(i as int)), units@[i as int] as int, 2);
            assert(u16_ints(units@.take(i + 1)) =~= u16_ints(units@.take(i as int)).push(units@[i as int] as int));
        }
        write_u16(units[i], out);
        i = i + 1;
    }
    out.push(0);
    out.push(0);
    proof {
        assert(units@.take(units@.len() as int) =~= units@);
        assert(out@ =~= old(out)@ + ptp_string_bytes(s@));
    }
}

pub proof fn lemma_utf16_encode_len_pos(s: Seq<char>)
    ensures
        s.len() > 0 ==> utf16_encode(s).len() >= 1,
        ptp_units(s).len() <= 253,
        s.len() > 0 ==> ptp_units(s).len() >= 1,
{
    if s.len() > 0 {
        lemma_utf16_of_char_shape(s[0]);
    }
}

/// Decode a PTP string from `buf`, advancing past it.
///
/// Decoding is lossy but total: unpaired surrogates become U+FFFD. A count
/// byte declaring more units than remain is a `Truncated` frame.
pub fn decode_string(buf: &mut &[u8]) -> (res: Result<String, ProtoError>)
    ensures
        final(buf)@ == ptp_string_read(old(buf)@).1,
        ptp_string_read(old(buf)@).0 matches Ok(c) ==> res matches Ok(s) && s@ == c,
        ptp_string_read(old(buf)@).0 matches Err(e) ==> res == Err::<String, ProtoError>(e),
{
    let sz = match read_u8(buf) {
        Ok(n) => n as usize,
        Err(e) => return Err(e),
    };
    proof {
        reveal_with_fuel(le_value, 2);
        assert(old(buf)@.take(1).drop_first() =~= Seq::<u8>::empty());
    }
    if sz == 0 {
        return Ok(String::new());
    }
    let need = 2 * sz;
    if buf.len() < need {
        return Err(ProtoError::Truncated { need, have: buf.len() });
    }
    let ghost rest = buf@;
    let mut units: Vec<u16> = Vec::new();
    let mut i: usize = 0;
    while i < sz
        invariant
            0 <= i <= sz,
            sz <= 255,
            need == 2 * sz,
            rest.len() >= need,
            buf@ == rest.skip(2 * i),
            units@ == units_of(rest, sz as nat).take(i as int),
        decreases sz - i,
    {
        let ghost before = buf@;
        let x = match read_u16(buf) {
            Ok(x) => x,
            Err(e) => return Err(e),
        };
        proof {
            assert(before.take(2) =~= rest.subrange(2 * i, 2 * i + 2));
            assert(before.skip(2) =~= rest.skip(2 * i + 2));
            assert(units@.push(x) =~= units_of(rest, sz as nat).take(i + 1));
        }
        units.push(x);
        i = i + 1;
    }
    proof {
        assert(units@ =~= units_of(rest, sz as nat));
    }
    if units[units.len() - 1] == 0 {
        units.pop();
    }
    let text = decode_units(&units);
    Ok(text)
}

/// Lossy UTF-16 decoding of a unit sequence.
fn decode_units(units: &Vec<u16>) -> (text: String)
    ensures
        text@ == utf16_decode(units@),
{
    let mut text = String::new();
    let n = units.len();
    let mut i: usize = 0;
    proof {
        assert(units@.subrange(0, n as int) =~= units@);
    }
    while i < n
        invariant
            0 <= i <= n,
            n == units@.len(),
            text@ + utf16_decode(units@.subrange(i as int, n as int)) == utf16_decode(units@),
        decreases n - i,
    {
        let ghost tail = units@.subrange(i as int, n as int);
        let u = units[i];
        if i + 1 < n && 0xD800 <= u && u <= 0xDBFF && 0xDC00 <= units[i + 1] && units[i + 1] <= 0xDFFF {
            let l = units[i + 1];
            let v: u32 = 0x10000 + (u as u32 - 0xD800) * 0x400 + (l as u32 - 0xDC00);
            proof {
                assert(vstd::utf8::is_scalar(v));
                assert(tail.subrange(2, tail.len() as int) =~= units@.subrange(i + 2, n as int));
            }
            match char_from_u32(v) {
                Some(c) => push_char(&mut text, c),
                None => push_char(&mut text, '\u{FFFD}'),
            }
            i = i + 2;
            proof {
                assert(text@ + utf16_decode(units@.subrange(i as int, n as int)) =~= utf16_decode(units@));
            }
        } else if 0xD800 <= u && u <= 0xDFFF {
            proof {
                assert(tail.drop_first() =~= units@.subrange(i + 1, n as int));
            }
            push_char(&mut text, '\u{FFFD}');
            i = i + 1;
            proof {
                assert(text@ + utf16_decode(units@.subrange(i as int, n as int)) =~= utf16_decode(units@));
            }
        } else {
            proof {
                assert(tail.drop_first() =~= units@.subrange(i + 1, n as int));
                assert(vstd::utf8::is_scalar(u as u32));
            }
            match char_from_u32(u as u32) {
                Some(c) => push_char(&mut text, c),
                None => push_char(&mut text, '\u{FFFD}'),
            }
            i = i + 1;
            proof {
                assert(text@ + utf16_decode(units@.subrange(i as int, n as int)) =~= utf16_decode(units@));
            }
        }
    }
    proof {
        assert(units@.subrange(n as int, n as int) =~= Seq::<u16>::empty());
        assert(text@ + Seq::<char>::empty() =~= text@);
    }
    text
}

} // verus!
