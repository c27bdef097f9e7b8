//! What a read gives back of a write, for property values and the
//! count-prefixed arrays of the codec.
use vstd::prelude::*;
use crate::codec::{
    array_bytes, array_count, array_read_error, ints_bytes, le_i, le_u, le_value, lemma_ints_bytes_len,
    lemma_le_roundtrip, lemma_pow256_16, pow256, signed_of, u16s_of, u32s_of, unsigned_of,
};
use crate::error::ProtoErrorView;
use crate::utf16::{lemma_ints_bytes_chunk, max_content_units, utf16_encode};
use super::elems::{
    i128_ints, i16_ints, i32_ints, i64_ints, i8_ints, u128_ints, u64_ints, u8_ints,
};
use super::prop_value::{prop_value_bytes, prop_value_fits, prop_value_read, PropValueView};
use super::reader::{
    elems_i128, elems_i16, elems_i32, elems_i64, elems_i8, elems_u128, elems_u16, elems_u32,
    elems_u64, elems_u8, lemma_rd_str_of, lemma_rd_u16_of, lemma_rd_u32_of, lemma_rd_u64_of,
    lemma_rd_u8_of, rd_i128, rd_i16, rd_i32, rd_i64, rd_i8, rd_u128,
};

verus! {

/// The data type code of a value: 1..=10 for the scalars from `i8` to
/// `u128`, `0xFFFF` for the string, and `0x4000` plus the element code for
/// an array.
pub open spec fn prop_value_type(v: PropValueView) -> u16 {
    match v {
        PropValueView::I8(_) => 1,
        PropValueView::U8(_) => 2,
        PropValueView::I16(_) => 3,
        PropValueView::U16(_) => 4,
        PropValueView::I32(_) => 5,
        PropValueView::U32(_) => 6,
        PropValueView::I64(_) => 7,
        PropValueView::U64(_) => 8,
        PropValueView::I128(_) => 9,
        PropValueView::U128(_) => 10,
        PropValueView::Str(_) => 0xFFFF,
        PropValueView::I8Array(_) => 0x4001,
        PropValueView::U8Array(_) => 0x4002,
        PropValueView::I16Array(_) => 0x4003,
        PropValueView::U16Array(_) => 0x4004,
        PropValueView::I32Array(_) => 0x4005,
        PropValueView::U32Array(_) => 0x4006,
        PropValueView::I64Array(_) => 0x4007,
        PropValueView::U64Array(_) => 0x4008,
        PropValueView::I128Array(_) => 0x4009,
        PropValueView::U128Array(_) => 0x400A,
    }
}

/// Whether a value reads back as written: its arrays fit the `u32` count and
/// the address space, and its string the PTP length limit (a longer string
/// is cut when written).
pub open spec fn prop_value_readable(v: PropValueView) -> bool {
    &&& prop_value_fits(v)
    &&& match v {
        PropValueView::Str(s) => utf16_encode(s).len() <= max_content_units(),
        PropValueView::I8Array(a) => a.len() * 1 <= usize::MAX,
        PropValueView::U8Array(a) => a.len() * 1 <= usize::MAX,
        PropValueView::I16Array(a) => a.len() * 2 <= usize::MAX,
        PropValueView::U16Array(a) => a.len() * 2 <= usize::MAX,
        PropValueView::I32Array(a) => a.len() * 4 <= usize::MAX,
        PropValueView::U32Array(a) => a.len() * 4 <= usize::MAX,
        PropValueView::I64Array(a) => a.len() * 8 <= usize::MAX,
        PropValueView::U64Array(a) => a.len() * 8 <= usize::MAX,
        PropValueView::I128Array(a) => a.len() * 16 <= usize::MAX,
        PropValueView::U128Array(a) => a.len() * 16 <= usize::MAX,
        _ => true,
    }
}

/// A signed value written in `n` bytes reads back.
proof fn lemma_signed_roundtrip(x: int, n: nat)
    requires
        n == 1 || n == 2 || n == 4 || n == 8 || n == 16,
        -(pow256(n) as int / 2) <= x < pow256(n) as int / 2,
    ensures
        le_i(x, n).len() == n,
        signed_of(le_value(le_i(x, n)), 8 * n) == x,
{
    lemma_pow256_16();
    let u = unsigned_of(x, n);
    assert(u < pow256(n));
    lemma_le_roundtrip(u, n);
    assert((8 * n) / 8 == n) by (nonlinear_arith);
}

/// A non-negative value written in `n` bytes reads back.
proof fn lemma_unsigned_roundtrip(x: int, n: nat)
    requires
        0 <= x < pow256(n),
    ensures
        le_i(x, n) == le_u(x, n),
        le_i(x, n).len() == n,
        le_value(le_i(x, n)) == x,
{
    lemma_le_roundtrip(x as nat, n);
}

/// Element `i` of a written integer sequence, followed by anything, is the
/// encoding of that element.
proof fn lemma_chunk_of(v: Seq<int>, w: nat, tail: Seq<u8>, i: int)
    requires
        0 <= i < v.len(),
    ensures
        (ints_bytes(v, w) + tail).subrange(w * i, w * i + w) == le_i(v[i], w),
        ints_bytes(v, w).len() == v.len() * w,
{
    lemma_ints_bytes_chunk(v, w, i);
    lemma_ints_bytes_len(v, w);
    assert(w * i + w <= v.len() * w) by (nonlinear_arith)
        requires
            0 <= i < v.len(),
    ;
    assert(w * i >= 0) by (nonlinear_arith)
        requires
            0 <= i,
    ;
    let b = ints_bytes(v, w);
    assert((b + tail).subrange(w * i, w * i + w) =~= b.subrange(w * i, w * i + w));
}

/// A written `i8` array's elements read back.
proof fn lemma_elems_i8(a: Seq<i8>, tail: Seq<u8>)
    ensures
        elems_i8(ints_bytes(i8_ints(a), 1) + tail, a.len()) == a,
        ints_bytes(i8_ints(a), 1).len() == a.len() * 1,
{
    lemma_pow256_16();
    lemma_ints_bytes_len(i8_ints(a), 1);
    assert forall|i: int| 0 <= i < a.len() implies #[trigger] elems_i8(ints_bytes(i8_ints(a), 1) + tail, a.len())[i] == a[i] by {
        lemma_chunk_of(i8_ints(a), 1, tail, i);
        assert(i8_ints(a)[i] == a[i] as int);
        assert(1 * i == 1 * i);
        lemma_signed_roundtrip(a[i] as int, 1);
    }
    assert(elems_i8(ints_bytes(i8_ints(a), 1) + tail, a.len()) =~= a);
}

/// A written `u8` array's elements read back.
proof fn lemma_elems_u8(a: Seq<u8>, tail: Seq<u8>)
    ensures
        elems_u8(ints_bytes(u8_ints(a), 1) + tail, a.len()) == a,
        ints_bytes(u8_ints(a), 1).len() == a.len() * 1,
{
    lemma_pow256_16();
    lemma_ints_bytes_len(u8_ints(a), 1);
    assert forall|i: int| 0 <= i < a.len() implies #[trigger] elems_u8(ints_bytes(u8_ints(a), 1) + tail, a.len())[i] == a[i] by {
        lemma_chunk_of(u8_ints(a), 1, tail, i);
        assert(u8_ints(a)[i] == a[i] as int);
        assert(1 * i == 1 * i);
        lemma_unsigned_roundtrip(a[i] as int, 1);
    }
    assert(elems_u8(ints_bytes(u8_ints(a), 1) + tail, a.len()) =~= a);
}

/// A written `i16` array's elements read back.
proof fn lemma_elems_i16(a: Seq<i16>, tail: Seq<u8>)
    ensures
        elems_i16(ints_bytes(i16_ints(a), 2) + tail, a.len()) == a,
        ints_bytes(i16_ints(a), 2).len() == a.len() * 2,
{
    lemma_pow256_16();
    lemma_ints_bytes_len(i16_ints(a), 2);
    assert forall|i: int| 0 <= i < a.len() implies #[trigger] elems_i16(ints_bytes(i16_ints(a), 2) + tail, a.len())[i] == a[i] by {
        lemma_chunk_of(i16_ints(a), 2, tail, i);
        assert(i16_ints(a)[i] == a[i] as int);
        assert(2 * i == 2 * i);
        lemma_signed_roundtrip(a[i] as int, 2);
    }
    assert(elems_i16(ints_bytes(i16_ints(a), 2) + tail, a.len()) =~= a);
}

/// A written `u16` array's elements read back.
proof fn lemma_elems_u16(a: Seq<u16>, tail: Seq<u8>)
    ensures
        elems_u16(ints_bytes(crate::codec::u16_ints(a), 2) + tail, a.len()) == a,
        ints_bytes(crate::codec::u16_ints(a), 2).len() == a.len() * 2,
{
    lemma_pow256_16();
    lemma_ints_bytes_len(crate::codec::u16_ints(a), 2);
    assert forall|i: int| 0 <= i < a.len() implies #[trigger] elems_u16(ints_bytes(crate::codec::u16_ints(a), 2) + tail, a.len())[i] == a[i] by {
        lemma_chunk_of(crate::codec::u16_ints(a), 2, tail, i);
        assert(crate::codec::u16_ints(a)[i] == a[i] as int);
        assert(2 * i == 2 * i);
        lemma_unsigned_roundtrip(a[i] as int, 2);
    }
    assert(elems_u16(ints_bytes(crate::codec::u16_ints(a), 2) + tail, a.len()) =~= a);
}

/// A written `i32` array's elements read back.
proof fn lemma_elems_i32(a: Seq<i32>, tail: Seq<u8>)
    ensures
        elems_i32(ints_bytes(i32_ints(a), 4) + tail, a.len()) == a,
        ints_bytes(i32_ints(a), 4).len() == a.len() * 4,
{
    lemma_pow256_16();
    lemma_ints_bytes_len(i32_ints(a), 4);
    assert forall|i: int| 0 <= i < a.len() implies #[trigger] elems_i32(ints_bytes(i32_ints(a), 4) + tail, a.len())[i] == a[i] by {
        lemma_chunk_of(i32_ints(a), 4, tail, i);
        assert(i32_ints(a)[i] == a[i] as int);
        assert(4 * i == 4 * i);
        lemma_signed_roundtrip(a[i] as int, 4);
    }
    assert(elems_i32(ints_bytes(i32_ints(a), 4) + tail, a.len()) =~= a);
}

/// A written `u32` array's elements read back.
proof fn lemma_elems_u32(a: Seq<u32>, tail: Seq<u8>)
    ensures
        elems_u32(ints_bytes(crate::codec::u32_ints(a), 4) + tail, a.len()) == a,
        ints_bytes(crate::codec::u32_ints(a), 4).len() == a.len() * 4,
{
    lemma_pow256_16();
    lemma_ints_bytes_len(crate::codec::u32_ints(a), 4);
    assert forall|i: int| 0 <= i < a.len() implies #[trigger] elems_u32(ints_bytes(crate::codec::u32_ints(a), 4) + tail, a.len())[i] == a[i] by {
        lemma_chunk_of(crate::codec::u32_ints(a), 4, tail, i);
        assert(crate::codec::u32_ints(a)[i] == a[i] as int);
        assert(4 * i == 4 * i);
        lemma_unsigned_roundtrip(a[i] as int, 4);
    }
    assert(elems_u32(ints_bytes(crate::codec::u32_ints(a), 4) + tail, a.len()) =~= a);
}

/// A written `i64` array's elements read back.
proof fn lemma_elems_i64(a: Seq<i64>, tail: Seq<u8>)
    ensures
        elems_i64(ints_bytes(i64_ints(a), 8) + tail, a.len()) == a,
        ints_bytes(i64_ints(a), 8).len() == a.len() * 8,
{
    lemma_pow256_16();
    lemma_ints_bytes_len(i64_ints(a), 8);
    assert forall|i: int| 0 <= i < a.len() implies #[trigger] elems_i64(ints_bytes(i64_ints(a), 8) + tail, a.len())[i] == a[i] by {
        lemma_chunk_of(i64_ints(a), 8, tail, i);
        assert(i64_ints(a)[i] == a[i] as int);
        assert(8 * i == 8 * i);
        lemma_signed_roundtrip(a[i] as int, 8);
    }
    assert(elems_i64(ints_bytes(i64_ints(a), 8) + tail, a.len()) =~= a);
}

/// A written `u64` array's elements read back.
proof fn lemma_elems_u64(a: Seq<u64>, tail: Seq<u8>)
    ensures
        elems_u64(ints_bytes(u64_ints(a), 8) + tail, a.len()) == a,
        ints_bytes(u64_ints(a), 8).len() == a.len() * 8,
{
    lemma_pow256_16();
    lemma_ints_bytes_len(u64_ints(a), 8);
    assert forall|i: int| 0 <= i < a.len() implies #[trigger] elems_u64(ints_bytes(u64_ints(a), 8) + tail, a.len())[i] == a[i] by {
        lemma_chunk_of(u64_ints(a), 8, tail, i);
        assert(u64_ints(a)[i] == a[i] as int);
        assert(8 * i == 8 * i);
        lemma_unsigned_roundtrip(a[i] as int, 8);
    }
    assert(elems_u64(ints_bytes(u64_ints(a), 8) + tail, a.len()) =~= a);
}

/// A written `i128` array's elements read back.
proof fn lemma_elems_i128(a: Seq<i128>, tail: Seq<u8>)
    ensures
        elems_i128(ints_bytes(i128_ints(a), 16) + tail, a.len()) == a,
        ints_bytes(i128_ints(a), 16).len() == a.len() * 16,
{
    lemma_pow256_16();
    lemma_ints_bytes_len(i128_ints(a), 16);
    assert forall|i: int| 0 <= i < a.len() implies #[trigger] elems_i128(ints_bytes(i128_ints(a), 16) + tail, a.len())[i] == a[i] by {
        lemma_chunk_of(i128_ints(a), 16, tail, i);
        assert(i128_ints(a)[i] == a[i] as int);
        assert(16 * i == 16 * i);
        lemma_signed_roundtrip(a[i] as int, 16);
    }
    assert(elems_i128(ints_bytes(i128_ints(a), 16) + tail, a.len()) =~= a);
}

/// A written `u128` array's elements read back.
proof fn lemma_elems_u128(a: Seq<u128>, tail: Seq<u8>)
    ensures
        elems_u128(ints_bytes(u128_ints(a), 16) + tail, a.len()) == a,
        ints_bytes(u128_ints(a), 16).len() == a.len() * 16,
{
    lemma_pow256_16();
    lemma_ints_bytes_len(u128_ints(a), 16);
    assert forall|i: int| 0 <= i < a.len() implies #[trigger] elems_u128(ints_bytes(u128_ints(a), 16) + tail, a.len())[i] == a[i] by {
        lemma_chunk_of(u128_ints(a), 16, tail, i);
        assert(u128_ints(a)[i] == a[i] as int);
        assert(16 * i == 16 * i);
        lemma_unsigned_roundtrip(a[i] as int, 16);
    }
    assert(elems_u128(ints_bytes(u128_ints(a), 16) + tail, a.len()) =~= a);
}

proof fn lemma_i8_value_roundtrip(x: i8, tail: Seq<u8>)
    ensures
        prop_value_read(prop_value_bytes(PropValueView::I8(x)) + tail, 1) == Ok::<(PropValueView, Seq<u8>), ProtoErrorView>((PropValueView::I8(x), tail)),
{
    reveal(prop_value_read);
    lemma_pow256_16();
    lemma_scalar_selector(1);
    let b = prop_value_bytes(PropValueView::I8(x)) + tail;
    reveal(rd_i8);
    lemma_signed_roundtrip(x as int, 1);
    assert(b.take(1) =~= le_i(x as int, 1));
    assert(b.skip(1) =~= tail);
}

proof fn lemma_u8_value_roundtrip(x: u8, tail: Seq<u8>)
    ensures
        prop_value_read(prop_value_bytes(PropValueView::U8(x)) + tail, 2) == Ok::<(PropValueView, Seq<u8>), ProtoErrorView>((PropValueView::U8(x), tail)),
{
    reveal(prop_value_read);
    lemma_pow256_16();
    lemma_scalar_selector(2);
    let b = prop_value_bytes(PropValueView::U8(x)) + tail;
    lemma_rd_u8_of(x, tail);
}

proof fn lemma_i16_value_roundtrip(x: i16, tail: Seq<u8>)
    ensures
        prop_value_read(prop_value_bytes(PropValueView::I16(x)) + tail, 3) == Ok::<(PropValueView, Seq<u8>), ProtoErrorView>((PropValueView::I16(x), tail)),
{
    reveal(prop_value_read);
    lemma_pow256_16();
    lemma_scalar_selector(3);
    let b = prop_value_bytes(PropValueView::I16(x)) + tail;
    reveal(rd_i16);
    lemma_signed_roundtrip(x as int, 2);
    assert(b.take(2) =~= le_i(x as int, 2));
    assert(b.skip(2) =~= tail);
}

proof fn lemma_u16_value_roundtrip(x: u16, tail: Seq<u8>)
    ensures
        prop_value_read(prop_value_bytes(PropValueView::U16(x)) + tail, 4) == Ok::<(PropValueView, Seq<u8>), ProtoErrorView>((PropValueView::U16(x), tail)),
{
    reveal(prop_value_read);
    lemma_pow256_16();
    lemma_scalar_selector(4);
    let b = prop_value_bytes(PropValueView::U16(x)) + tail;
    lemma_rd_u16_of(x, tail);
}

proof fn lemma_i32_value_roundtrip(x: i32, tail: Seq<u8>)
    ensures
        prop_value_read(prop_value_bytes(PropValueView::I32(x)) + tail, 5) == Ok::<(PropValueView, Seq<u8>), ProtoErrorView>((PropValueView::I32(x), tail)),
{
    reveal(prop_value_read);
    lemma_pow256_16();
    lemma_scalar_selector(5);
    let b = prop_value_bytes(PropValueView::I32(x)) + tail;
    reveal(rd_i32);
    lemma_signed_roundtrip(x as int, 4);
    assert(b.take(4) =~= le_i(x as int, 4));
    assert(b.skip(4) =~= tail);
}

proof fn lemma_u32_value_roundtrip(x: u32, tail: Seq<u8>)
    ensures
        prop_value_read(prop_value_bytes(PropValueView::U32(x)) + tail, 6) == Ok::<(PropValueView, Seq<u8>), ProtoErrorView>((PropValueView::U32(x), tail)),
{
    reveal(prop_value_read);
    lemma_pow256_16();
    lemma_scalar_selector(6);
    let b = prop_value_bytes(PropValueView::U32(x)) + tail;
    lemma_rd_u32_of(x, tail);
}

proof fn lemma_i64_value_roundtrip(x: i64, tail: Seq<u8>)
    ensures
        prop_value_read(prop_value_bytes(PropValueView::I64(x)) + tail, 7) == Ok::<(PropValueView, Seq<u8>), ProtoErrorView>((PropValueView::I64(x), tail)),
{
    reveal(prop_value_read);
    lemma_pow256_16();
    lemma_scalar_selector(7);
    let b = prop_value_bytes(PropValueView::I64(x)) + tail;
    reveal(rd_i64);
    lemma_signed_roundtrip(x as int, 8);
    assert(b.take(8) =~= le_i(x as int, 8));
    assert(b.skip(8) =~= tail);
}

proof fn lemma_u64_value_roundtrip(x: u64, tail: Seq<u8>)
    ensures
        prop_value_read(prop_value_bytes(PropValueView::U64(x)) + tail, 8) == Ok::<(PropValueView, Seq<u8>), ProtoErrorView>((PropValueView::U64(x), tail)),
{
    reveal(prop_value_read);
    lemma_pow256_16();
    lemma_scalar_selector(8);
    let b = prop_value_bytes(PropValueView::U64(x)) + tail;
    lemma_rd_u64_of(x, tail);
}

proof fn lemma_i128_value_roundtrip(x: i128, tail: Seq<u8>)
    ensures
        prop_value_read(prop_value_bytes(PropValueView::I128(x)) + tail, 9) == Ok::<(PropValueView, Seq<u8>), ProtoErrorView>((PropValueView::I128(x), tail)),
{
    reveal(prop_value_read);
    lemma_pow256_16();
    lemma_scalar_selector(9);
    let b = prop_value_bytes(PropValueView::I128(x)) + tail;
    reveal(rd_i128);
    lemma_signed_roundtrip(x as int, 16);
    assert(b.take(16) =~= le_i(x as int, 16));
    assert(b.skip(16) =~= tail);
}

proof fn lemma_u128_value_roundtrip(x: u128, tail: Seq<u8>)
    ensures
        prop_value_read(prop_value_bytes(PropValueView::U128(x)) + tail, 10) == Ok::<(PropValueView, Seq<u8>), ProtoErrorView>((PropValueView::U128(x), tail)),
{
    reveal(prop_value_read);
    lemma_pow256_16();
    lemma_scalar_selector(10);
    let b = prop_value_bytes(PropValueView::U128(x)) + tail;
    reveal(rd_u128);
    lemma_unsigned_roundtrip(x as int, 16);
    assert(b.take(16) =~= le_i(x as int, 16));
    assert(b.skip(16) =~= tail);
}

proof fn lemma_i8_array_value_roundtrip(a: Seq<i8>, tail: Seq<u8>)
    requires
        a.len() <= u32::MAX,
        a.len() * 1 <= usize::MAX,
    ensures
        prop_value_read(prop_value_bytes(PropValueView::I8Array(a)) + tail, 0x4001) == Ok::<(PropValueView, Seq<u8>), ProtoErrorView>((PropValueView::I8Array(a), tail)),
{
    reveal(prop_value_read);
    lemma_pow256_16();
    lemma_array_selector(0x4001);
    lemma_elems_i8(a, tail);
    let b = prop_value_bytes(PropValueView::I8Array(a)) + tail;
    let body = ints_bytes(i8_ints(a), 1) + tail;
    assert(b =~= le_u(a.len() as int, 4) + body);
    lemma_rd_u32_of(a.len() as u32, body);
    assert(body.skip((a.len() * 1) as int) =~= tail);
}

proof fn lemma_u8_array_value_roundtrip(a: Seq<u8>, tail: Seq<u8>)
    requires
        a.len() <= u32::MAX,
        a.len() * 1 <= usize::MAX,
    ensures
        prop_value_read(prop_value_bytes(PropValueView::U8Array(a)) + tail, 0x4002) == Ok::<(PropValueView, Seq<u8>), ProtoErrorView>((PropValueView::U8Array(a), tail)),
{
    reveal(prop_value_read);
    lemma_pow256_16();
    lemma_array_selector(0x4002);
    lemma_elems_u8(a, tail);
    let b = prop_value_bytes(PropValueView::U8Array(a)) + tail;
    let body = ints_bytes(u8_ints(a), 1) + tail;
    assert(b =~= le_u(a.len() as int, 4) + body);
    lemma_rd_u32_of(a.len() as u32, body);
    assert(body.skip((a.len() * 1) as int) =~= tail);
}

proof fn lemma_i16_array_value_roundtrip(a: Seq<i16>, tail: Seq<u8>)
    requires
        a.len() <= u32::MAX,
        a.len() * 2 <= usize::MAX,
    ensures
        prop_value_read(prop_value_bytes(PropValueView::I16Array(a)) + tail, 0x4003) == Ok::<(PropValueView, Seq<u8>), ProtoErrorView>((PropValueView::I16Array(a), tail)),
{
    reveal(prop_value_read);
    lemma_pow256_16();
    lemma_array_selector(0x4003);
    lemma_elems_i16(a, tail);
    let b = prop_value_bytes(PropValueView::I16Array(a)) + tail;
    let body = ints_bytes(i16_ints(a), 2) + tail;
    assert(b =~= le_u(a.len() as int, 4) + body);
    lemma_rd_u32_of(a.len() as u32, body);
    assert(body.skip((a.len() * 2) as int) =~= tail);
}

proof fn lemma_u16_array_value_roundtrip(a: Seq<u16>, tail: Seq<u8>)
    requires
        a.len() <= u32::MAX,
        a.len() * 2 <= usize::MAX,
    ensures
        prop_value_read(prop_value_bytes(PropValueView::U16Array(a)) + tail, 0x4004) == Ok::<(PropValueView, Seq<u8>), ProtoErrorView>((PropValueView::U16Array(a), tail)),
{
    reveal(prop_value_read);
    lemma_pow256_16();
    lemma_array_selector(0x4004);
    lemma_elems_u16(a, tail);
    let b = prop_value_bytes(PropValueView::U16Array(a)) + tail;
    let body = ints_bytes(crate::codec::u16_ints(a), 2) + tail;
    assert(b =~= le_u(a.len() as int, 4) + body);
    lemma_rd_u32_of(a.len() as u32, body);
    assert(body.skip((a.len() * 2) as int) =~= tail);
}

proof fn lemma_i32_array_value_roundtrip(a: Seq<i32>, tail: Seq<u8>)
    requires
        a.len() <= u32::MAX,
        a.len() * 4 <= usize::MAX,
    ensures
        prop_value_read(prop_value_bytes(PropValueView::I32Array(a)) + tail, 0x4005) == Ok::<(PropValueView, Seq<u8>), ProtoErrorView>((PropValueView::I32Array(a), tail)),
{
    reveal(prop_value_read);
    lemma_pow256_16();
    lemma_array_selector(0x4005);
    lemma_elems_i32(a, tail);
    let b = prop_value_bytes(PropValueView::I32Array(a)) + tail;
    let body = ints_bytes(i32_ints(a), 4) + tail;
    assert(b =~= le_u(a.len() as int, 4) + body);
    lemma_rd_u32_of(a.len() as u32, body);
    assert(body.skip((a.len() * 4) as int) =~= tail);
}

proof fn lemma_u32_array_value_roundtrip(a: Seq<u32>, tail: Seq<u8>)
    requires
        a.len() <= u32::MAX,
        a.len() * 4 <= usize::MAX,
    ensures
        prop_value_read(prop_value_bytes(PropValueView::U32Array(a)) + tail, 0x4006) == Ok::<(PropValueView, Seq<u8>), ProtoErrorView>((PropValueView::U32Array(a), tail)),
{
    reveal(prop_value_read);
    lemma_pow256_16();
    lemma_array_selector(0x4006);
    lemma_elems_u32(a, tail);
    let b = prop_value_bytes(PropValueView::U32Array(a)) + tail;
    let body = ints_bytes(crate::codec::u32_ints(a), 4) + tail;
    assert(b =~= le_u(a.len() as int, 4) + body);
    lemma_rd_u32_of(a.len() as u32, body);
    assert(body.skip((a.len() * 4) as int) =~= tail);
}

proof fn lemma_i64_array_value_roundtrip(a: Seq<i64>, tail: Seq<u8>)
    requires
        a.len() <= u32::MAX,
        a.len() * 8 <= usize::MAX,
    ensures
        prop_value_read(prop_value_bytes(PropValueView::I64Array(a)) + tail, 0x4007) == Ok::<(PropValueView, Seq<u8>), ProtoErrorView>((PropValueView::I64Array(a), tail)),
{
    reveal(prop_value_read);
    lemma_pow256_16();
    lemma_array_selector(0x4007);
    lemma_elems_i64(a, tail);
    let b = prop_value_bytes(PropValueView::I64Array(a)) + tail;
    let body = ints_bytes(i64_ints(a), 8) + tail;
    assert(b =~= le_u(a.len() as int, 4) + body);
    lemma_rd_u32_of(a.len() as u32, body);
    assert(body.skip((a.len() * 8) as int) =~= tail);
}

proof fn lemma_u64_array_value_roundtrip(a: Seq<u64>, tail: Seq<u8>)
    requires
        a.len() <= u32::MAX,
        a.len() * 8 <= usize::MAX,
    ensures
        prop_value_read(prop_value_bytes(PropValueView::U64Array(a)) + tail, 0x4008) == Ok::<(PropValueView, Seq<u8>), ProtoErrorView>((PropValueView::U64Array(a), tail)),
{
    reveal(prop_value_read);
    lemma_pow256_16();
    lemma_array_selector(0x4008);
    lemma_elems_u64(a, tail);
    let b = prop_value_bytes(PropValueView::U64Array(a)) + tail;
    let body = ints_bytes(u64_ints(a), 8) + tail;
    assert(b =~= le_u(a.len() as int, 4) + body);
    lemma_rd_u32_of(a.len() as u32, body);
    assert(body.skip((a.len() * 8) as int) =~= tail);
}

proof fn lemma_i128_array_value_roundtrip(a: Seq<i128>, tail: Seq<u8>)
    requires
        a.len() <= u32::MAX,
        a.len() * 16 <= usize::MAX,
    ensures
        prop_value_read(prop_value_bytes(PropValueView::I128Array(a)) + tail, 0x4009) == Ok::<(PropValueView, Seq<u8>), ProtoErrorView>((PropValueView::I128Array(a), tail)),
{
    reveal(prop_value_read);
    lemma_pow256_16();
    lemma_array_selector(0x4009);
    lemma_elems_i128(a, tail);
    let b = prop_value_bytes(PropValueView::I128Array(a)) + tail;
    let body = ints_bytes(i128_ints(a), 16) + tail;
    assert(b =~= le_u(a.len() as int, 4) + body);
    lemma_rd_u32_of(a.len() as u32, body);
    assert(body.skip((a.len() * 16) as int) =~= tail);
}

proof fn lemma_u128_array_value_roundtrip(a: Seq<u128>, tail: Seq<u8>)
    requires
        a.len() <= u32::MAX,
        a.len() * 16 <= usize::MAX,
    ensures
        prop_value_read(prop_value_bytes(PropValueView::U128Array(a)) + tail, 0x400A) == Ok::<(PropValueView, Seq<u8>), ProtoErrorView>((PropValueView::U128Array(a), tail)),
{
    reveal(prop_value_read);
    lemma_pow256_16();
    lemma_array_selector(0x400A);
    lemma_elems_u128(a, tail);
    let b = prop_value_bytes(PropValueView::U128Array(a)) + tail;
    let body = ints_bytes(u128_ints(a), 16) + tail;
    assert(b =~= le_u(a.len() as int, 4) + body);
    lemma_rd_u32_of(a.len() as u32, body);
    assert(body.skip((a.len() * 16) as int) =~= tail);
}

/// A value read under a scalar (1..=10) or string selector has that selector's data
/// type: the selector alone decides which variant comes back.
pub proof fn lemma_prop_value_read_type(b: Seq<u8>, sel: u16)
    requires
        sel == 0xFFFF || 1 <= sel <= 10,
    ensures
        prop_value_read(b, sel) matches Ok((x, _)) ==> prop_value_type(x) == sel,
{
    if sel != 0xFFFF {
        assert(sel & 0x4000 == 0) by (bit_vector)
            requires
                1 <= sel <= 10,
        ;
    }
    reveal(prop_value_read);
}

/// A written value reads back under its own data type, leaving what follows.
pub proof fn lemma_prop_value_roundtrip(v: PropValueView, tail: Seq<u8>)
    requires
        prop_value_readable(v),
    ensures
        prop_value_read(prop_value_bytes(v) + tail, prop_value_type(v)) == Ok::<(PropValueView, Seq<u8>), ProtoErrorView>((v, tail)),
{
    match v {
        PropValueView::Str(s) => {
            reveal(prop_value_read);
            lemma_rd_str_of(s, tail);
        },
        PropValueView::I8(x) => lemma_i8_value_roundtrip(x, tail),
        PropValueView::U8(x) => lemma_u8_value_roundtrip(x, tail),
        PropValueView::I16(x) => lemma_i16_value_roundtrip(x, tail),
        PropValueView::U16(x) => lemma_u16_value_roundtrip(x, tail),
        PropValueView::I32(x) => lemma_i32_value_roundtrip(x, tail),
        PropValueView::U32(x) => lemma_u32_value_roundtrip(x, tail),
        PropValueView::I64(x) => lemma_i64_value_roundtrip(x, tail),
        PropValueView::U64(x) => lemma_u64_value_roundtrip(x, tail),
        PropValueView::I128(x) => lemma_i128_value_roundtrip(x, tail),
        PropValueView::U128(x) => lemma_u128_value_roundtrip(x, tail),
        PropValueView::I8Array(a) => lemma_i8_array_value_roundtrip(a, tail),
        PropValueView::U8Array(a) => lemma_u8_array_value_roundtrip(a, tail),
        PropValueView::I16Array(a) => lemma_i16_array_value_roundtrip(a, tail),
        PropValueView::U16Array(a) => lemma_u16_array_value_roundtrip(a, tail),
        PropValueView::I32Array(a) => lemma_i32_array_value_roundtrip(a, tail),
        PropValueView::U32Array(a) => lemma_u32_array_value_roundtrip(a, tail),
        PropValueView::I64Array(a) => lemma_i64_array_value_roundtrip(a, tail),
        PropValueView::U64Array(a) => lemma_u64_array_value_roundtrip(a, tail),
        PropValueView::I128Array(a) => lemma_i128_array_value_roundtrip(a, tail),
        PropValueView::U128Array(a) => lemma_u128_array_value_roundtrip(a, tail),
    }
}

/// The scalar type codes have no array bit.
proof fn lemma_scalar_selector(sel: u16)
    by (bit_vector)
    requires
        1 <= sel <= 10,
    ensures
        sel & 0x4000 == 0,
{
}

/// The array type codes carry the array bit over their element code.
proof fn lemma_array_selector(sel: u16)
    by (bit_vector)
    requires
        0x4001 <= sel <= 0x400A,
    ensures
        sel & 0x4000 != 0,
        sel & 0xBFFF == sel - 0x4000,
{
}

/// A count-prefixed `u16` array reads back: no error, its count, its
/// elements, and what follows.
pub proof fn lemma_u16_array_roundtrip(a: Seq<u16>, tail: Seq<u8>)
    requires
        a.len() <= u32::MAX,
        a.len() * 2 <= usize::MAX,
    ensures
        ({
            let b = array_bytes(crate::codec::u16_ints(a), 2) + tail;
            &&& array_read_error(b, 2) is None
            &&& array_count(b) == a.len()
            &&& u16s_of(b.skip(4), a.len()) == a
            &&& b.skip(4).skip((a.len() * 2) as int) == tail
        }),
{
    lemma_pow256_16();
    lemma_elems_u16(a, tail);
    let body = ints_bytes(crate::codec::u16_ints(a), 2) + tail;
    let b = array_bytes(crate::codec::u16_ints(a), 2) + tail;
    lemma_unsigned_roundtrip(a.len() as int, 4);
    assert(b =~= le_u(a.len() as int, 4) + body);
    assert(b.take(4) =~= le_u(a.len() as int, 4));
    assert(b.skip(4) =~= body);
    assert(u16s_of(body, a.len()) =~= elems_u16(body, a.len()));
    assert(body.skip((a.len() * 2) as int) =~= tail);
}

/// A count-prefixed `u32` array reads back: no error, its count, its
/// elements, and what follows.
pub proof fn lemma_u32_array_roundtrip(a: Seq<u32>, tail: Seq<u8>)
    requires
        a.len() <= u32::MAX,
        a.len() * 4 <= usize::MAX,
    ensures
        ({
            let b = array_bytes(crate::codec::u32_ints(a), 4) + tail;
            &&& array_read_error(b, 4) is None
            &&& array_count(b) == a.len()
            &&& u32s_of(b.skip(4), a.len()) == a
            &&& b.skip(4).skip((a.len() * 4) as int) == tail
        }),
{
    lemma_pow256_16();
    lemma_elems_u32(a, tail);
    let body = ints_bytes(crate::codec::u32_ints(a), 4) + tail;
    let b = array_bytes(crate::codec::u32_ints(a), 4) + tail;
    lemma_unsigned_roundtrip(a.len() as int, 4);
    assert(b =~= le_u(a.len() as int, 4) + body);
    assert(b.take(4) =~= le_u(a.len() as int, 4));
    assert(b.skip(4) =~= body);
    assert(u32s_of(body, a.len()) =~= elems_u32(body, a.len()));
    assert(body.skip((a.len() * 4) as int) =~= tail);
}

} // verus!
