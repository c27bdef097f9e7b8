//! Property values: one value of whichever MTP data type a selector names.
use vstd::prelude::*;
use crate::codec::{
    array_bytes, count_bytes, ints_bytes, le_i, le_u, u16_ints, u32_ints, write_i128, write_i16,
    write_i32, write_i64, write_i8, write_u128, write_u16, write_u16_array, write_u32,
    write_count, write_u32_array, write_u64, write_u8,
};
use crate::error::{ProtoError, ProtoErrorView};
use crate::ptp_string::encode_string;
use crate::utf16::ptp_string_bytes;
use super::elems::{
    i128_ints, i16_ints, i32_ints, i64_ints, i8_ints, u128_ints, u64_ints, u8_ints,
    read_i128_elems, read_i16_elems, read_i32_elems, read_i64_elems, read_i8_elems,
    read_u128_elems, read_u16_elems, read_u32_elems, read_u64_elems, read_u8_elems,
    write_i128_elems, write_i16_elems, write_i32_elems, write_i64_elems, write_i8_elems,
    write_u128_elems, write_u64_elems, write_u8_elems,
};
use super::reader::{
    elems_i128, elems_i16, elems_i32, elems_i64, elems_i8, elems_u128, elems_u16, elems_u32,
    elems_u64, elems_u8, get_i128, get_i16, get_i32, get_i64, get_i8, get_str, get_u128, get_u16,
    get_u32, get_u64, get_u8, rd_i128, rd_i16, rd_i32, rd_i64, rd_i8, rd_str, rd_u128, rd_u16,
    rd_u32, rd_u64, rd_u8,
};

verus! {

/// A single MTP property value, tagged by the data type that produced it:
/// every scalar type, the string type, and every array type.
#[derive(Clone, Debug, PartialEq)]
pub enum PropValue {
    I8(i8),
    U8(u8),
    I16(i16),
    U16(u16),
    I32(i32),
    U32(u32),
    I64(i64),
    U64(u64),
    I128(i128),
    U128(u128),
    Str(String),
    I8Array(Vec<i8>),
    U8Array(Vec<u8>),
    I16Array(Vec<i16>),
    U16Array(Vec<u16>),
    I32Array(Vec<i32>),
    U32Array(Vec<u32>),
    I64Array(Vec<i64>),
    U64Array(Vec<u64>),
    I128Array(Vec<i128>),
    U128Array(Vec<u128>),
}

/// A property value with its string and arrays as sequences.
pub enum PropValueView {
    I8(i8),
    U8(u8),
    I16(i16),
    U16(u16),
    I32(i32),
    U32(u32),
    I64(i64),
    U64(u64),
    I128(i128),
    U128(u128),
    Str(Seq<char>),
    I8Array(Seq<i8>),
    U8Array(Seq<u8>),
    I16Array(Seq<i16>),
    U16Array(Seq<u16>),
    I32Array(Seq<i32>),
    U32Array(Seq<u32>),
    I64Array(Seq<i64>),
    U64Array(Seq<u64>),
    I128Array(Seq<i128>),
    U128Array(Seq<u128>),
}

impl View for PropValue {
    type V = PropValueView;

    open spec fn view(&self) -> PropValueView {
        match self {
            PropValue::I8(x) => PropValueView::I8(*x),
            PropValue::U8(x) => PropValueView::U8(*x),
            PropValue::I16(x) => PropValueView::I16(*x),
            PropValue::U16(x) => PropValueView::U16(*x),
            PropValue::I32(x) => PropValueView::I32(*x),
            PropValue::U32(x) => PropValueView::U32(*x),
            PropValue::I64(x) => PropValueView::I64(*x),
            PropValue::U64(x) => PropValueView::U64(*x),
            PropValue::I128(x) => PropValueView::I128(*x),
            PropValue::U128(x) => PropValueView::U128(*x),
            PropValue::Str(x) => PropValueView::Str(x@),
            PropValue::I8Array(x) => PropValueView::I8Array(x@),
            PropValue::U8Array(x) => PropValueView::U8Array(x@),
            PropValue::I16Array(x) => PropValueView::I16Array(x@),
            PropValue::U16Array(x) => PropValueView::U16Array(x@),
            PropValue::I32Array(x) => PropValueView::I32Array(x@),
            PropValue::U32Array(x) => PropValueView::U32Array(x@),
            PropValue::I64Array(x) => PropValueView::I64Array(x@),
            PropValue::U64Array(x) => PropValueView::U64Array(x@),
            PropValue::I128Array(x) => PropValueView::I128Array(x@),
            PropValue::U128Array(x) => PropValueView::U128Array(x@),
        }
    }
}

/// Whether every array in `v` has a length that fits the `u32` count.
pub open spec fn prop_value_fits(v: PropValueView) -> bool {
    match v {
        PropValueView::I8Array(a) => a.len() <= u32::MAX,
        PropValueView::U8Array(a) => a.len() <= u32::MAX,
        PropValueView::I16Array(a) => a.len() <= u32::MAX,
        PropValueView::U16Array(a) => a.len() <= u32::MAX,
        PropValueView::I32Array(a) => a.len() <= u32::MAX,
        PropValueView::U32Array(a) => a.len() <= u32::MAX,
        PropValueView::I64Array(a) => a.len() <= u32::MAX,
        PropValueView::U64Array(a) => a.len() <= u32::MAX,
        PropValueView::I128Array(a) => a.len() <= u32::MAX,
        PropValueView::U128Array(a) => a.len() <= u32::MAX,
        _ => true,
    }
}

/// The raw bytes of a value (no type prefix): scalars little-endian, the
/// string in PTP form, arrays as a `u32` count then their elements.
pub open spec fn prop_value_bytes(v: PropValueView) -> Seq<u8> {
    match v {
        PropValueView::I8(x) => le_i(x as int, 1),
        PropValueView::U8(x) => le_u(x as int, 1),
        PropValueView::I16(x) => le_i(x as int, 2),
        PropValueView::U16(x) => le_u(x as int, 2),
        PropValueView::I32(x) => le_i(x as int, 4),
        PropValueView::U32(x) => le_u(x as int, 4),
        PropValueView::I64(x) => le_i(x as int, 8),
        PropValueView::U64(x) => le_u(x as int, 8),
        PropValueView::I128(x) => le_i(x as int, 16),
        PropValueView::U128(x) => le_u(x as int, 16),
        PropValueView::Str(x) => ptp_string_bytes(x),
        PropValueView::I8Array(a) => count_bytes(a.len()) + ints_bytes(i8_ints(a), 1),
        PropValueView::U8Array(a) => count_bytes(a.len()) + ints_bytes(u8_ints(a), 1),
        PropValueView::I16Array(a) => count_bytes(a.len()) + ints_bytes(i16_ints(a), 2),
        PropValueView::U16Array(a) => array_bytes(u16_ints(a), 2),
        PropValueView::I32Array(a) => count_bytes(a.len()) + ints_bytes(i32_ints(a), 4),
        PropValueView::U32Array(a) => array_bytes(u32_ints(a), 4),
        PropValueView::I64Array(a) => count_bytes(a.len()) + ints_bytes(i64_ints(a), 8),
        PropValueView::U64Array(a) => count_bytes(a.len()) + ints_bytes(u64_ints(a), 8),
        PropValueView::I128Array(a) => count_bytes(a.len()) + ints_bytes(i128_ints(a), 16),
        PropValueView::U128Array(a) => count_bytes(a.len()) + ints_bytes(u128_ints(a), 16),
    }
}

/// Byte width of the element type an array selector's base names.
pub open spec fn elem_width(base: u16) -> Option<nat> {
    if base == 1 || base == 2 {
        Some(1)
    } else if base == 3 || base == 4 {
        Some(2)
    } else if base == 5 || base == 6 {
        Some(4)
    } else if base == 7 || base == 8 {
        Some(8)
    } else if base == 9 || base == 10 {
        Some(16)
    } else {
        None
    }
}

/// The array of `count` elements of type `base` stored at the front of `b`.
pub open spec fn array_view(b: Seq<u8>, base: u16, count: nat) -> PropValueView {
    if base == 1 {
        PropValueView::I8Array(elems_i8(b, count))
    } else if base == 2 {
        PropValueView::U8Array(elems_u8(b, count))
    } else if base == 3 {
        PropValueView::I16Array(elems_i16(b, count))
    } else if base == 4 {
        PropValueView::U16Array(elems_u16(b, count))
    } else if base == 5 {
        PropValueView::I32Array(elems_i32(b, count))
    } else if base == 6 {
        PropValueView::U32Array(elems_u32(b, count))
    } else if base == 7 {
        PropValueView::I64Array(elems_i64(b, count))
    } else if base == 8 {
        PropValueView::U64Array(elems_u64(b, count))
    } else if base == 9 {
        PropValueView::I128Array(elems_i128(b, count))
    } else if base == 10 {
        PropValueView::U128Array(elems_u128(b, count))
    } else {
        PropValueView::U8Array(Seq::empty())
    }
}

/// Reading the elements of an array value of type `base` with `count`
/// elements: the width is checked, then the byte count against what remains.
pub open spec fn array_value_read(b: Seq<u8>, base: u16, count: nat) -> Result<
    (PropValueView, Seq<u8>),
    ProtoErrorView,
> {
    match elem_width(base) {
        None => Err(ProtoErrorView::Unsupported("unknown MTP array element type"@)),
        Some(w) => if count * w > usize::MAX {
            Err(ProtoErrorView::Truncated { need: usize::MAX, have: b.len() as usize })
        } else if b.len() < count * w {
            Err(ProtoErrorView::Truncated { need: (count * w) as usize, have: b.len() as usize })
        } else {
            Ok((array_view(b, base, count), b.skip((count * w) as int)))
        },
    }
}

/// Reading one value of data type `sel` from `b`. The string type
/// (`0xFFFF`) is recognised before the array bit (`0x4000`), which it also
/// carries.
#[verifier::opaque]
pub open spec fn prop_value_read(b: Seq<u8>, sel: u16) -> Result<(PropValueView, Seq<u8>), ProtoErrorView> {
    if sel == 0xFFFF {
        match rd_str(b) {
            Ok((s, r)) => Ok((PropValueView::Str(s), r)),
            Err(e) => Err(e),
        }
    } else if sel & 0x4000 != 0 {
        match rd_u32(b) {
            Ok((c, r)) => array_value_read(r, sel & 0xBFFF, c as nat),
            Err(e) => Err(e),
        }
    } else if sel == 1 {
        match rd_i8(b) {
            Ok((x, r)) => Ok((PropValueView::I8(x), r)),
            Err(e) => Err(e),
        }
    } else if sel == 2 {
        match rd_u8(b) {
            Ok((x, r)) => Ok((PropValueView::U8(x), r)),
            Err(e) => Err(e),
        }
    } else if sel == 3 {
        match rd_i16(b) {
            Ok((x, r)) => Ok((PropValueView::I16(x), r)),
            Err(e) => Err(e),
        }
    } else if sel == 4 {
        match rd_u16(b) {
            Ok((x, r)) => Ok((PropValueView::U16(x), r)),
            Err(e) => Err(e),
        }
    } else if sel == 5 {
        match rd_i32(b) {
            Ok((x, r)) => Ok((PropValueView::I32(x), r)),
            Err(e) => Err(e),
        }
    } else if sel == 6 {
        match rd_u32(b) {
            Ok((x, r)) => Ok((PropValueView::U32(x), r)),
            Err(e) => Err(e),
        }
    } else if sel == 7 {
        match rd_i64(b) {
            Ok((x, r)) => Ok((PropValueView::I64(x), r)),
            Err(e) => Err(e),
        }
    } else if sel == 8 {
        match rd_u64(b) {
            Ok((x, r)) => Ok((PropValueView::U64(x), r)),
            Err(e) => Err(e),
        }
    } else if sel == 9 {
        match rd_i128(b) {
            Ok((x, r)) => Ok((PropValueView::I128(x), r)),
            Err(e) => Err(e),
        }
    } else if sel == 10 {
        match rd_u128(b) {
            Ok((x, r)) => Ok((PropValueView::U128(x), r)),
            Err(e) => Err(e),
        }
    } else {
        Err(ProtoErrorView::Unsupported("unknown MTP data type code"@))
    }
}

impl PropValue {
    /// Encode the raw value bytes (see [`prop_value_bytes`]).
    pub fn encode(&self, out: &mut Vec<u8>)
        ensures
            final(out)@ == old(out)@ + prop_value_bytes(self@),
    {
        match self {
            PropValue::I8(x) => write_i8(*x, out),
            PropValue::U8(x) => write_u8(*x, out),
            PropValue::I16(x) => write_i16(*x, out),
            PropValue::U16(x) => write_u16(*x, out),
            PropValue::I32(x) => write_i32(*x, out),
            PropValue::U32(x) => write_u32(*x, out),
            PropValue::I64(x) => write_i64(*x, out),
            PropValue::U64(x) => write_u64(*x, out),
            PropValue::I128(x) => write_i128(*x, out),
            PropValue::U128(x) => write_u128(*x, out),
            PropValue::Str(x) => encode_string(x.as_str(), out),
            PropValue::I8Array(a) => {
                write_count(a.len(), out);
                write_i8_elems(a.as_slice(), out);
                proof {
                    assert(final(out)@ =~= old(out)@ + prop_value_bytes(self@));
                }
            },
            PropValue::U8Array(a) => {
                write_count(a.len(), out);
                write_u8_elems(a.as_slice(), out);
                proof {
                    assert(final(out)@ =~= old(out)@ + prop_value_bytes(self@));
                }
            },
            PropValue::I16Array(a) => {
                write_count(a.len(), out);
                write_i16_elems(a.as_slice(), out);
                proof {
                    assert(final(out)@ =~= old(out)@ + prop_value_bytes(self@));
                }
            },
            PropValue::U16Array(a) => write_u16_array(a.as_slice(), out),
            PropValue::I32Array(a) => {
                write_count(a.len(), out);
                write_i32_elems(a.as_slice(), out);
                proof {
                    assert(final(out)@ =~= old(out)@ + prop_value_bytes(self@));
                }
            },
            PropValue::U32Array(a) => write_u32_array(a.as_slice(), out),
            PropValue::I64Array(a) => {
                write_count(a.len(), out);
                write_i64_elems(a.as_slice(), out);
                proof {
                    assert(final(out)@ =~= old(out)@ + prop_value_bytes(self@));
                }
            },
            PropValue::U64Array(a) => {
                write_count(a.len(), out);
                write_u64_elems(a.as_slice(), out);
                proof {
                    assert(final(out)@ =~= old(out)@ + prop_value_bytes(self@));
                }
            },
            PropValue::I128Array(a) => {
                write_count(a.len(), out);
                write_i128_elems(a.as_slice(), out);
                proof {
                    assert(final(out)@ =~= old(out)@ + prop_value_bytes(self@));
                }
            },
            PropValue::U128Array(a) => {
                write_count(a.len(), out);
                write_u128_elems(a.as_slice(), out);
                proof {
                    assert(final(out)@ =~= old(out)@ + prop_value_bytes(self@));
                }
            },
        }
    }
}

/// Check that `count` elements of `elem` bytes fit in the `have` bytes left,
/// before anything is allocated for them.
fn checked_need(count: usize, elem: usize, have: usize) -> (r: Result<(), ProtoError>)
    ensures
        count * elem > usize::MAX ==> r == Err::<(), ProtoError>(
            ProtoError::Truncated { need: usize::MAX, have },
        ),
        count * elem <= usize::MAX && have < count * elem ==> r == Err::<(), ProtoError>(
            ProtoError::Truncated { need: (count * elem) as usize, have },
        ),
        count * elem <= usize::MAX && have >= count * elem ==> r == Ok::<(), ProtoError>(()),
{
    let need = match count.checked_mul(elem) {
        Some(n) => n,
        None => return Err(ProtoError::Truncated { need: usize::MAX, have }),
    };
    if have < need {
        return Err(ProtoError::Truncated { need, have });
    }
    Ok(())
}

fn decode_array_value(buf: &mut &[u8], base: u16, count: usize) -> (r: Result<PropValue, ProtoError>)
    ensures
        match array_value_read(old(buf)@, base, count as nat) {
            Ok((v, rest)) => r matches Ok(p) && p@ == v && final(buf)@ == rest,
            Err(e) => r matches Err(x) && x@ == e,
        },
{
    let elem: usize = match base {
        1 | 2 => 1,
        3 | 4 => 2,
        5 | 6 => 4,
        7 | 8 => 8,
        9 | 10 => 16,
        _ => return Err(ProtoError::Unsupported("unknown MTP array element type")),
    };
    match checked_need(count, elem, buf.len()) {
        Ok(()) => {},
        Err(e) => return Err(e),
    }
    match base {
        1 => Ok(PropValue::I8Array(read_i8_elems(buf, count))),
        2 => Ok(PropValue::U8Array(read_u8_elems(buf, count))),
        3 => Ok(PropValue::I16Array(read_i16_elems(buf, count))),
        4 => Ok(PropValue::U16Array(read_u16_elems(buf, count))),
        5 => Ok(PropValue::I32Array(read_i32_elems(buf, count))),
        6 => Ok(PropValue::U32Array(read_u32_elems(buf, count))),
        7 => Ok(PropValue::I64Array(read_i64_elems(buf, count))),
        8 => Ok(PropValue::U64Array(read_u64_elems(buf, count))),
        9 => Ok(PropValue::I128Array(read_i128_elems(buf, count))),
        10 => Ok(PropValue::U128Array(read_u128_elems(buf, count))),
        _ => Err(ProtoError::Unsupported("unknown MTP array element type")),
    }
}

/// Decode one value of data type `selector` (see [`prop_value_read`]).
pub fn decode_prop_value(buf: &mut &[u8], selector: u16) -> (r: Result<PropValue, ProtoError>)
    ensures
        match prop_value_read(old(buf)@, selector) {
            Ok((v, rest)) => r matches Ok(p) && p@ == v && final(buf)@ == rest,
            Err(e) => r matches Err(x) && x@ == e,
        },
        r is Err ==> final(buf)@ == old(buf)@,
{
    let start: &[u8] = *buf;
    let r = read_prop_value(buf, selector);
    if r.is_err() {
        *buf = start;
    }
    r
}

/// Decode a property value of data type `selector`, consuming its bytes.
fn read_prop_value(buf: &mut &[u8], selector: u16) -> (r: Result<PropValue, ProtoError>)
    ensures
        match prop_value_read(old(buf)@, selector) {
            Ok((v, rest)) => r matches Ok(p) && p@ == v && final(buf)@ == rest,
            Err(e) => r matches Err(x) && x@ == e,
        },
{
    proof {
        reveal(prop_value_read);
    }
    if selector == 0xFFFF {
        return match get_str(buf) {
            Ok(s) => Ok(PropValue::Str(s)),
            Err(e) => Err(e),
        };
    }
    if selector & 0x4000 != 0 {
        let count = match get_u32(buf) {
            Ok(c) => c as usize,
            Err(e) => return Err(e),
        };
        return decode_array_value(buf, selector & 0xBFFF, count);
    }
    match selector {
        1 => match get_i8(buf) {
            Ok(x) => Ok(PropValue::I8(x)),
            Err(e) => Err(e),
        },
        2 => match get_u8(buf) {
            Ok(x) => Ok(PropValue::U8(x)),
            Err(e) => Err(e),
        },
        3 => match get_i16(buf) {
            Ok(x) => Ok(PropValue::I16(x)),
            Err(e) => Err(e),
        },
        4 => match get_u16(buf) {
            Ok(x) => Ok(PropValue::U16(x)),
            Err(e) => Err(e),
        },
        5 => match get_i32(buf) {
            Ok(x) => Ok(PropValue::I32(x)),
            Err(e) => Err(e),
        },
        6 => match get_u32(buf) {
            Ok(x) => Ok(PropValue::U32(x)),
            Err(e) => Err(e),
        },
        7 => match get_i64(buf) {
            Ok(x) => Ok(PropValue::I64(x)),
            Err(e) => Err(e),
        },
        8 => match get_u64(buf) {
            Ok(x) => Ok(PropValue::U64(x)),
            Err(e) => Err(e),
        },
        9 => match get_i128(buf) {
            Ok(x) => Ok(PropValue::I128(x)),
            Err(e) => Err(e),
        },
        10 => match get_u128(buf) {
            Ok(x) => Ok(PropValue::U128(x)),
            Err(e) => Err(e),
        },
        _ => Err(ProtoError::Unsupported("unknown MTP data type code")),
    }
}

} // verus!
