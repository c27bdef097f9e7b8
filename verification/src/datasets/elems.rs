//! Fixed-count runs of little-endian integers, read and written in order.
use vstd::prelude::*;
use crate::codec::{
    ints_bytes, le_i, le_u, lemma_ints_bytes_push, read_i128, read_i16, read_i32, read_i64,
    read_i8, read_u128, read_u16, read_u32, read_u64, read_u8, write_i128, write_i16, write_i32,
    write_i64, write_i8, write_u128, write_u16, write_u32, write_u64, write_u8,
};
use super::reader::{
    elems_i128, elems_i16, elems_i32, elems_i64, elems_i8, elems_u128, elems_u16, elems_u32,
    elems_u64, elems_u8,
};

verus! {

/// Integer view of a `i8` sequence.
pub open spec fn i8_ints(v: Seq<i8>) -> Seq<int> {
    v.map_values(|x: i8| x as int)
}

/// Read `count` little-endian `i8`s; the caller has checked that they fit.
pub(crate) fn read_i8_elems(buf: &mut &[u8], count: usize) -> (v: Vec<i8>)
    requires
        old(buf)@.len() >= count * 1,
    ensures
        v@ == elems_i8(old(buf)@, count as nat),
        final(buf)@ == old(buf)@.skip(count * 1),
{
    let ghost orig = buf@;
    let mut v: Vec<i8> = Vec::new();
    let mut i: usize = 0;
    proof {
        assert(v@ =~= elems_i8(orig, 0));
        assert(orig.skip(0) =~= orig);
    }
    while i < count
        invariant
            0 <= i <= count,
            orig.len() >= count * 1,
            buf@ == orig.skip(1 * i),
            v@ == elems_i8(orig, i as nat),
        decreases count - i,
    {
        let ghost before = buf@;
        let x = match read_i8(buf) {
            Ok(x) => x,
            Err(_) => {
                proof { assert(false); }
                return v;
            },
        };
        proof {
            assert(before.take(1) =~= orig.subrange(1 * i, 1 * i + 1));
            assert(before.skip(1) =~= orig.skip(1 * i + 1));
            assert(v@.push(x) =~= elems_i8(orig, (i + 1) as nat));
        }
        v.push(x);
        i = i + 1;
    }
    v
}

/// Append each `i8` of `a`, little-endian, in order.
pub(crate) fn write_i8_elems(a: &[i8], out: &mut Vec<u8>)
    ensures
        final(out)@ == old(out)@ + ints_bytes(i8_ints(a@), 1),
{
    let mut i: usize = 0;
    proof {
        assert(i8_ints(a@.take(0)) =~= Seq::<int>::empty());
        assert(old(out)@ + ints_bytes(Seq::<int>::empty(), 1) =~= old(out)@);
    }
    while i < a.len()
        invariant
            0 <= i <= a@.len(),
            out@ == old(out)@ + ints_bytes(i8_ints(a@.take(i as int)), 1),
        decreases a@.len() - i,
    {
        let x = a[i];
        write_i8(x, out);
        proof {
            lemma_ints_bytes_push(i8_ints(a@.take(i as int)), x as int, 1);
            assert(i8_ints(a@.take(i + 1)) =~= i8_ints(a@.take(i as int)).push(x as int));
            assert(le_i(x as int, 1) == le_i(x as int, 1));
        }
        i = i + 1;
    }
    proof {
        assert(a@.take(a@.len() as int) =~= a@);
    }
}

/// Integer view of a `u8` sequence.
pub open spec fn u8_ints(v: Seq<u8>) -> Seq<int> {
    v.map_values(|x: u8| x as int)
}

/// Read `count` little-endian `u8`s; the caller has checked that they fit.
pub(crate) fn read_u8_elems(buf: &mut &[u8], count: usize) -> (v: Vec<u8>)
    requires
        old(buf)@.len() >= count * 1,
    ensures
        v@ == elems_u8(old(buf)@, count as nat),
        final(buf)@ == old(buf)@.skip(count * 1),
{
    let ghost orig = buf@;
    let mut v: Vec<u8> = Vec::new();
    let mut i: usize = 0;
    proof {
        assert(v@ =~= elems_u8(orig, 0));
        assert(orig.skip(0) =~= orig);
    }
    while i < count
        invariant
            0 <= i <= count,
            orig.len() >= count * 1,
            buf@ == orig.skip(1 * i),
            v@ == elems_u8(orig, i as nat),
        decreases count - i,
    {
        let ghost before = buf@;
        let x = match read_u8(buf) {
            Ok(x) => x,
            Err(_) => {
                proof { assert(false); }
                return v;
            },
        };
        proof {
            assert(before.take(1) =~= orig.subrange(1 * i, 1 * i + 1));
            assert(before.skip(1) =~= orig.skip(1 * i + 1));
            assert(v@.push(x) =~= elems_u8(orig, (i + 1) as nat));
        }
        v.push(x);
        i = i + 1;
    }
    v
}

/// Append each `u8` of `a`, little-endian, in order.
pub(crate) fn write_u8_elems(a: &[u8], out: &mut Vec<u8>)
    ensures
        final(out)@ == old(out)@ + ints_bytes(u8_ints(a@), 1),
{
    let mut i: usize = 0;
    proof {
        assert(u8_ints(a@.take(0)) =~= Seq::<int>::empty());
        assert(old(out)@ + ints_bytes(Seq::<int>::empty(), 1) =~= old(out)@);
    }
    while i < a.len()
        invariant
            0 <= i <= a@.len(),
            out@ == old(out)@ + ints_bytes(u8_ints(a@.take(i as int)), 1),
        decreases a@.len() - i,
    {
        let x = a[i];
        write_u8(x, out);
        proof {
            lemma_ints_bytes_push(u8_ints(a@.take(i as int)), x as int, 1);
            assert(u8_ints(a@.take(i + 1)) =~= u8_ints(a@.take(i as int)).push(x as int));
            assert(le_u(x as int, 1) == le_i(x as int, 1));
        }
        i = i + 1;
    }
    proof {
        assert(a@.take(a@.len() as int) =~= a@);
    }
}

/// Integer view of a `i16` sequence.
pub open spec fn i16_ints(v: Seq<i16>) -> Seq<int> {
    v.map_values(|x: i16| x as int)
}

/// Read `count` little-endian `i16`s; the caller has checked that they fit.
pub(crate) fn read_i16_elems(buf: &mut &[u8], count: usize) -> (v: Vec<i16>)
    requires
        old(buf)@.len() >= count * 2,
    ensures
        v@ == elems_i16(old(buf)@, count as nat),
        final(buf)@ == old(buf)@.skip(count * 2),
{
    let ghost orig = buf@;
    let mut v: Vec<i16> = Vec::new();
    let mut i: usize = 0;
    proof {
        assert(v@ =~= elems_i16(orig, 0));
        assert(orig.skip(0) =~= orig);
    }
    while i < count
        invariant
            0 <= i <= count,
            orig.len() >= count * 2,
            buf@ == orig.skip(2 * i),
            v@ == elems_i16(orig, i as nat),
        decreases count - i,
    {
        let ghost before = buf@;
        let x = match read_i16(buf) {
            Ok(x) => x,
            Err(_) => {
                proof { assert(false); }
                return v;
            },
        };
        proof {
            assert(before.take(2) =~= orig.subrange(2 * i, 2 * i + 2));
            assert(before.skip(2) =~= orig.skip(2 * i + 2));
            assert(v@.push(x) =~= elems_i16(orig, (i + 1) as nat));
        }
        v.push(x);
        i = i + 1;
    }
    v
}

/// Append each `i16` of `a`, little-endian, in order.
pub(crate) fn write_i16_elems(a: &[i16], out: &mut Vec<u8>)
    ensures
        final(out)@ == old(out)@ + ints_bytes(i16_ints(a@), 2),
{
    let mut i: usize = 0;
    proof {
        assert(i16_ints(a@.take(0)) =~= Seq::<int>::empty());
        assert(old(out)@ + ints_bytes(Seq::<int>::empty(), 2) =~= old(out)@);
    }
    while i < a.len()
        invariant
            0 <= i <= a@.len(),
            out@ == old(out)@ + ints_bytes(i16_ints(a@.take(i as int)), 2),
        decreases a@.len() - i,
    {
        let x = a[i];
        write_i16(x, out);
        proof {
            lemma_ints_bytes_push(i16_ints(a@.take(i as int)), x as int, 2);
            assert(i16_ints(a@.take(i + 1)) =~= i16_ints(a@.take(i as int)).push(x as int));
            assert(le_i(x as int, 2) == le_i(x as int, 2));
        }
        i = i + 1;
    }
    proof {
        assert(a@.take(a@.len() as int) =~= a@);
    }
}

/// Integer view of a `u16` sequence.
pub open spec fn u16_ints(v: Seq<u16>) -> Seq<int> {
    v.map_values(|x: u16| x as int)
}

/// Read `count` little-endian `u16`s; the caller has checked that they fit.
pub(crate) fn read_u16_elems(buf: &mut &[u8], count: usize) -> (v: Vec<u16>)
    requires
        old(buf)@.len() >= count * 2,
    ensures
        v@ == elems_u16(old(buf)@, count as nat),
        final(buf)@ == old(buf)@.skip(count * 2),
{
    let ghost orig = buf@;
    let mut v: Vec<u16> = Vec::new();
    let mut i: usize = 0;
    proof {
        assert(v@ =~= elems_u16(orig, 0));
        assert(orig.skip(0) =~= orig);
    }
    while i < count
        invariant
            0 <= i <= count,
            orig.len() >= count * 2,
            buf@ == orig.skip(2 * i),
            v@ == elems_u16(orig, i as nat),
        decreases count - i,
    {
        let ghost before = buf@;
        let x = match read_u16(buf) {
            Ok(x) => x,
            Err(_) => {
                proof { assert(false); }
                return v;
            },
        };
        proof {
            assert(before.take(2) =~= orig.subrange(2 * i, 2 * i + 2));
            assert(before.skip(2) =~= orig.skip(2 * i + 2));
            assert(v@.push(x) =~= elems_u16(orig, (i + 1) as nat));
        }
        v.push(x);
        i = i + 1;
    }
    v
}

/// Append each `u16` of `a`, little-endian, in order.
pub(crate) fn write_u16_elems(a: &[u16], out: &mut Vec<u8>)
    ensures
        final(out)@ == old(out)@ + ints_bytes(u16_ints(a@), 2),
{
    let mut i: usize = 0;
    proof {
        assert(u16_ints(a@.take(0)) =~= Seq::<int>::empty());
        assert(old(out)@ + ints_bytes(Seq::<int>::empty(), 2) =~= old(out)@);
    }
    while i < a.len()
        invariant
            0 <= i <= a@.len(),
            out@ == old(out)@ + ints_bytes(u16_ints(a@.take(i as int)), 2),
        decreases a@.len() - i,
    {
        let x = a[i];
        write_u16(x, out);
        proof {
            lemma_ints_bytes_push(u16_ints(a@.take(i as int)), x as int, 2);
            assert(u16_ints(a@.take(i + 1)) =~= u16_ints(a@.take(i as int)).push(x as int));
            assert(le_u(x as int, 2) == le_i(x as int, 2));
        }
        i = i + 1;
    }
    proof {
        assert(a@.take(a@.len() as int) =~= a@);
    }
}

/// Integer view of a `i32` sequence.
pub open spec fn i32_ints(v: Seq<i32>) -> Seq<int> {
    v.map_values(|x: i32| x as int)
}

/// Read `count` little-endian `i32`s; the caller has checked that they fit.
pub(crate) fn read_i32_elems(buf: &mut &[u8], count: usize) -> (v: Vec<i32>)
    requires
        old(buf)@.len() >= count * 4,
    ensures
        v@ == elems_i32(old(buf)@, count as nat),
        final(buf)@ == old(buf)@.skip(count * 4),
{
    let ghost orig = buf@;
    let mut v: Vec<i32> = Vec::new();
    let mut i: usize = 0;
    proof {
        assert(v@ =~= elems_i32(orig, 0));
        assert(orig.skip(0) =~= orig);
    }
    while i < count
        invariant
            0 <= i <= count,
            orig.len() >= count * 4,
            buf@ == orig.skip(4 * i),
            v@ == elems_i32(orig, i as nat),
        decreases count - i,
    {
        let ghost before = buf@;
        let x = match read_i32(buf) {
            Ok(x) => x,
            Err(_) => {
                proof { assert(false); }
                return v;
            },
        };
        proof {
            assert(before.take(4) =~= orig.subrange(4 * i, 4 * i + 4));
            assert(before.skip(4) =~= orig.skip(4 * i + 4));
            assert(v@.push(x) =~= elems_i32(orig, (i + 1) as nat));
        }
        v.push(x);
        i = i + 1;
    }
    v
}

/// Append each `i32` of `a`, little-endian, in order.
pub(crate) fn write_i32_elems(a: &[i32], out: &mut Vec<u8>)
    ensures
        final(out)@ == old(out)@ + ints_bytes(i32_ints(a@), 4),
{
    let mut i: usize = 0;
    proof {
        assert(i32_ints(a@.take(0)) =~= Seq::<int>::empty());
        assert(old(out)@ + ints_bytes(Seq::<int>::empty(), 4) =~= old(out)@);
    }
    while i < a.len()
        invariant
            0 <= i <= a@.len(),
            out@ == old(out)@ + ints_bytes(i32_ints(a@.take(i as int)), 4),
        decreases a@.len() - i,
    {
        let x = a[i];
        write_i32(x, out);
        proof {
            lemma_ints_bytes_push(i32_ints(a@.take(i as int)), x as int, 4);
            assert(i32_ints(a@.take(i + 1)) =~= i32_ints(a@.take(i as int)).push(x as int));
            assert(le_i(x as int, 4) == le_i(x as int, 4));
        }
        i = i + 1;
    }
    proof {
        assert(a@.take(a@.len() as int) =~= a@);
    }
}

/// Integer view of a `u32` sequence.
pub open spec fn u32_ints(v: Seq<u32>) -> Seq<int> {
    v.map_values(|x: u32| x as int)
}

/// Read `count` little-endian `u32`s; the caller has checked that they fit.
pub(crate) fn read_u32_elems(buf: &mut &[u8], count: usize) -> (v: Vec<u32>)
    requires
        old(buf)@.len() >= count * 4,
    ensures
        v@ == elems_u32(old(buf)@, count as nat),
        final(buf)@ == old(buf)@.skip(count * 4),
{
    let ghost orig = buf@;
    let mut v: Vec<u32> = Vec::new();
    let mut i: usize = 0;
    proof {
        assert(v@ =~= elems_u32(orig, 0));
        assert(orig.skip(0) =~= orig);
    }
    while i < count
        invariant
            0 <= i <= count,
            orig.len() >= count * 4,
            buf@ == orig.skip(4 * i),
            v@ == elems_u32(orig, i as nat),
        decreases count - i,
    {
        let ghost before = buf@;
        let x = match read_u32(buf) {
            Ok(x) => x,
            Err(_) => {
                proof { assert(false); }
                return v;
            },
        };
        proof {
            assert(before.take(4) =~= orig.subrange(4 * i, 4 * i + 4));
            assert(before.skip(4) =~= orig.skip(4 * i + 4));
            assert(v@.push(x) =~= elems_u32(orig, (i + 1) as nat));
        }
        v.push(x);
        i = i + 1;
    }
    v
}

/// Append each `u32` of `a`, little-endian, in order.
pub(crate) fn write_u32_elems(a: &[u32], out: &mut Vec<u8>)
    ensures
        final(out)@ == old(out)@ + ints_bytes(u32_ints(a@), 4),
{
    let mut i: usize = 0;
    proof {
        assert(u32_ints(a@.take(0)) =~= Seq::<int>::empty());
        assert(old(out)@ + ints_bytes(Seq::<int>::empty(), 4) =~= old(out)@);
    }
    while i < a.len()
        invariant
            0 <= i <= a@.len(),
            out@ == old(out)@ + ints_bytes(u32_ints(a@.take(i as int)), 4),
        decreases a@.len() - i,
    {
        let x = a[i];
        write_u32(x, out);
        proof {
            lemma_ints_bytes_push(u32_ints(a@.take(i as int)), x as int, 4);
            assert(u32_ints(a@.take(i + 1)) =~= u32_ints(a@.take(i as int)).push(x as int));
            assert(le_u(x as int, 4) == le_i(x as int, 4));
        }
        i = i + 1;
    }
    proof {
        assert(a@.take(a@.len() as int) =~= a@);
    }
}

/// Integer view of a `i64` sequence.
pub open spec fn i64_ints(v: Seq<i64>) -> Seq<int> {
    v.map_values(|x: i64| x as int)
}

/// Read `count` little-endian `i64`s; the caller has checked that they fit.
pub(crate) fn read_i64_elems(buf: &mut &[u8], count: usize) -> (v: Vec<i64>)
    requires
        old(buf)@.len() >= count * 8,
    ensures
        v@ == elems_i64(old(buf)@, count as nat),
        final(buf)@ == old(buf)@.skip(count * 8),
{
    let ghost orig = buf@;
    let mut v: Vec<i64> = Vec::new();
    let mut i: usize = 0;
    proof {
        assert(v@ =~= elems_i64(orig, 0));
        assert(orig.skip(0) =~= orig);
    }
    while i < count
        invariant
            0 <= i <= count,
            orig.len() >= count * 8,
            buf@ == orig.skip(8 * i),
            v@ == elems_i64(orig, i as nat),
        decreases count - i,
    {
        let ghost before = buf@;
        let x = match read_i64(buf) {
            Ok(x) => x,
            Err(_) => {
                proof { assert(false); }
                return v;
            },
        };
        proof {
            assert(before.take(8) =~= orig.subrange(8 * i, 8 * i + 8));
            assert(before.skip(8) =~= orig.skip(8 * i + 8));
            assert(v@.push(x) =~= elems_i64(orig, (i + 1) as nat));
        }
        v.push(x);
        i = i + 1;
    }
    v
}

/// Append each `i64` of `a`, little-endian, in order.
pub(crate) fn write_i64_elems(a: &[i64], out: &mut Vec<u8>)
    ensures
        final(out)@ == old(out)@ + ints_bytes(i64_ints(a@), 8),
{
    let mut i: usize = 0;
    proof {
        assert(i64_ints(a@.take(0)) =~= Seq::<int>::empty());
        assert(old(out)@ + ints_bytes(Seq::<int>::empty(), 8) =~= old(out)@);
    }
    while i < a.len()
        invariant
            0 <= i <= a@.len(),
            out@ == old(out)@ + ints_bytes(i64_ints(a@.take(i as int)), 8),
        decreases a@.len() - i,
    {
        let x = a[i];
        write_i64(x, out);
        proof {
            lemma_ints_bytes_push(i64_ints(a@.take(i as int)), x as int, 8);
            assert(i64_ints(a@.take(i + 1)) =~= i64_ints(a@.take(i as int)).push(x as int));
            assert(le_i(x as int, 8) == le_i(x as int, 8));
        }
        i = i + 1;
    }
    proof {
        assert(a@.take(a@.len() as int) =~= a@);
    }
}

/// Integer view of a `u64` sequence.
pub open spec fn u64_ints(v: Seq<u64>) -> Seq<int> {
    v.map_values(|x: u64| x as int)
}

/// Read `count` little-endian `u64`s; the caller has checked that they fit.
pub(crate) fn read_u64_elems(buf: &mut &[u8], count: usize) -> (v: Vec<u64>)
    requires
        old(buf)@.len() >= count * 8,
    ensures
        v@ == elems_u64(old(buf)@, count as nat),
        final(buf)@ == old(buf)@.skip(count * 8),
{
    let ghost orig = buf@;
    let mut v: Vec<u64> = Vec::new();
    let mut i: usize = 0;
    proof {
        assert(v@ =~= elems_u64(orig, 0));
        assert(orig.skip(0) =~= orig);
    }
    while i < count
        invariant
            0 <= i <= count,
            orig.len() >= count * 8,
            buf@ == orig.skip(8 * i),
            v@ == elems_u64(orig, i as nat),
        decreases count - i,
    {
        let ghost before = buf@;
        let x = match read_u64(buf) {
            Ok(x) => x,
            Err(_) => {
                proof { assert(false); }
                return v;
            },
        };
        proof {
            assert(before.take(8) =~= orig.subrange(8 * i, 8 * i + 8));
            assert(before.skip(8) =~= orig.skip(8 * i + 8));
            assert(v@.push(x) =~= elems_u64(orig, (i + 1) as nat));
        }
        v.push(x);
        i = i + 1;
    }
    v
}

/// Append each `u64` of `a`, little-endian, in order.
pub(crate) fn write_u64_elems(a: &[u64], out: &mut Vec<u8>)
    ensures
        final(out)@ == old(out)@ + ints_bytes(u64_ints(a@), 8),
{
    let mut i: usize = 0;
    proof {
        assert(u64_ints(a@.take(0)) =~= Seq::<int>::empty());
        assert(old(out)@ + ints_bytes(Seq::<int>::empty(), 8) =~= old(out)@);
    }
    while i < a.len()
        invariant
            0 <= i <= a@.len(),
            out@ == old(out)@ + ints_bytes(u64_ints(a@.take(i as int)), 8),
        decreases a@.len() - i,
    {
        let x = a[i];
        write_u64(x, out);
        proof {
            lemma_ints_bytes_push(u64_ints(a@.take(i as int)), x as int, 8);
            assert(u64_ints(a@.take(i + 1)) =~= u64_ints(a@.take(i as int)).push(x as int));
            assert(le_u(x as int, 8) == le_i(x as int, 8));
        }
        i = i + 1;
    }
    proof {
        assert(a@.take(a@.len() as int) =~= a@);
    }
}

/// Integer view of a `i128` sequence.
pub open spec fn i128_ints(v: Seq<i128>) -> Seq<int> {
    v.map_values(|x: i128| x as int)
}

/// Read `count` little-endian `i128`s; the caller has checked that they fit.
pub(crate) fn read_i128_elems(buf: &mut &[u8], count: usize) -> (v: Vec<i128>)
    requires
        old(buf)@.len() >= count * 16,
    ensures
        v@ == elems_i128(old(buf)@, count as nat),
        final(buf)@ == old(buf)@.skip(count * 16),
{
    let ghost orig = buf@;
    let mut v: Vec<i128> = Vec::new();
    let mut i: usize = 0;
    proof {
        assert(v@ =~= elems_i128(orig, 0));
        assert(orig.skip(0) =~= orig);
    }
    while i < count
        invariant
            0 <= i <= count,
            orig.len() >= count * 16,
            buf@ == orig.skip(16 * i),
            v@ == elems_i128(orig, i as nat),
        decreases count - i,
    {
        let ghost before = buf@;
        let x = match read_i128(buf) {
            Ok(x) => x,
            Err(_) => {
                proof { assert(false); }
                return v;
            },
        };
        proof {
            assert(before.take(16) =~= orig.subrange(16 * i, 16 * i + 16));
            assert(before.skip(16) =~= orig.skip(16 * i + 16));
            assert(v@.push(x) =~= elems_i128(orig, (i + 1) as nat));
        }
        v.push(x);
        i = i + 1;
    }
    v
}

/// Append each `i128` of `a`, little-endian, in order.
pub(crate) fn write_i128_elems(a: &[i128], out: &mut Vec<u8>)
    ensures
        final(out)@ == old(out)@ + ints_bytes(i128_ints(a@), 16),
{
    let mut i: usize = 0;
    proof {
        assert(i128_ints(a@.take(0)) =~= Seq::<int>::empty());
        assert(old(out)@ + ints_bytes(Seq::<int>::empty(), 16) =~= old(out)@);
    }
    while i < a.len()
        invariant
            0 <= i <= a@.len(),
            out@ == old(out)@ + ints_bytes(i128_ints(a@.take(i as int)), 16),
        decreases a@.len() - i,
    {
        let x = a[i];
        write_i128(x, out);
        proof {
            lemma_ints_bytes_push(i128_ints(a@.take(i as int)), x as int, 16);
            assert(i128_ints(a@.take(i + 1)) =~= i128_ints(a@.take(i as int)).push(x as int));
            assert(le_i(x as int, 16) == le_i(x as int, 16));
        }
        i = i + 1;
    }
    proof {
        assert(a@.take(a@.len() as int) =~= a@);
    }
}

/// Integer view of a `u128` sequence.
pub open spec fn u128_ints(v: Seq<u128>) -> Seq<int> {
    v.map_values(|x: u128| x as int)
}

/// Read `count` little-endian `u128`s; the caller has checked that they fit.
pub(crate) fn read_u128_elems(buf: &mut &[u8], count: usize) -> (v: Vec<u128>)
    requires
        old(buf)@.len() >= count * 16,
    ensures
        v@ == elems_u128(old(buf)@, count as nat),
        final(buf)@ == old(buf)@.skip(count * 16),
{
    let ghost orig = buf@;
    let mut v: Vec<u128> = Vec::new();
    let mut i: usize = 0;
    proof {
        assert(v@ =~= elems_u128(orig, 0));
        assert(orig.skip(0) =~= orig);
    }
    while i < count
        invariant
            0 <= i <= count,
            orig.len() >= count * 16,
            buf@ == orig.skip(16 * i),
            v@ == elems_u128(orig, i as nat),
        decreases count - i,
    {
        let ghost before = buf@;
        let x = match read_u128(buf) {
            Ok(x) => x,
            Err(_) => {
                proof { assert(false); }
                return v;
            },
        };
        proof {
            assert(before.take(16) =~= orig.subrange(16 * i, 16 * i + 16));
            assert(before.skip(16) =~= orig.skip(16 * i + 16));
            assert(v@.push(x) =~= elems_u128(orig, (i + 1) as nat));
        }
        v.push(x);
        i = i + 1;
    }
    v
}

/// Append each `u128` of `a`, little-endian, in order.
pub(crate) fn write_u128_elems(a: &[u128], out: &mut Vec<u8>)
    ensures
        final(out)@ == old(out)@ + ints_bytes(u128_ints(a@), 16),
{
    let mut i: usize = 0;
    proof {
        assert(u128_ints(a@.take(0)) =~= Seq::<int>::empty());
        assert(old(out)@ + ints_bytes(Seq::<int>::empty(), 16) =~= old(out)@);
    }
    while i < a.len()
        invariant
            0 <= i <= a@.len(),
            out@ == old(out)@ + ints_bytes(u128_ints(a@.take(i as int)), 16),
        decreases a@.len() - i,
    {
        let x = a[i];
        write_u128(x, out);
        proof {
            lemma_ints_bytes_push(u128_ints(a@.take(i as int)), x as int, 16);
            assert(u128_ints(a@.take(i + 1)) =~= u128_ints(a@.take(i as int)).push(x as int));
            assert(le_u(x as int, 16) == le_i(x as int, 16));
        }
        i = i + 1;
    }
    proof {
        assert(a@.take(a@.len() as int) =~= a@);
    }
}

} // verus!
