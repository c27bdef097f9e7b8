//! Spec readers: what reading each wire field from a byte sequence yields,
//! as the value and the bytes left, or the error the read reports.
use vstd::prelude::*;
use crate::codec::{
    array_count, array_read_error, le_value, read_i128, read_i16, read_i32, read_i64, read_i8,
    read_u128, read_u16, read_u16_array, read_u32, read_u32_array, read_u64, read_u8, signed_of,
    u16s_of, u32s_of,
};
use crate::codec::{le_u, lemma_le_roundtrip, lemma_pow256_16};
use crate::ptp_string::decode_string;
use crate::utf16::{lemma_ptp_string_roundtrip, max_content_units, ptp_string_bytes, utf16_encode};
use crate::error::{ProtoError, ProtoErrorView};
use crate::utf16::ptp_string_read;

verus! {

/// The error a short fixed-width read reports.
pub open spec fn short(need: nat, have: nat) -> ProtoErrorView {
    ProtoErrorView::Truncated { need: need as usize, have: have as usize }
}

/// Reading a little-endian `i8` from `b`.
#[verifier::opaque]
pub open spec fn rd_i8(b: Seq<u8>) -> Result<(i8, Seq<u8>), ProtoErrorView> {
    if b.len() >= 1 {
        Ok((signed_of(le_value(b.take(1)), 8) as i8, b.skip(1)))
    } else {
        Err(short(1, b.len()))
    }
}

/// The `count` little-endian `i8`s stored at the front of `b`.
pub open spec fn elems_i8(b: Seq<u8>, count: nat) -> Seq<i8> {
    Seq::new(count, |i: int| signed_of(le_value(b.subrange(1 * i, 1 * i + 1)), 8) as i8)
}

/// Reading a little-endian `u8` from `b`.
#[verifier::opaque]
pub open spec fn rd_u8(b: Seq<u8>) -> Result<(u8, Seq<u8>), ProtoErrorView> {
    if b.len() >= 1 {
        Ok((le_value(b.take(1)) as u8, b.skip(1)))
    } else {
        Err(short(1, b.len()))
    }
}

/// The `count` little-endian `u8`s stored at the front of `b`.
pub open spec fn elems_u8(b: Seq<u8>, count: nat) -> Seq<u8> {
    Seq::new(count, |i: int| le_value(b.subrange(1 * i, 1 * i + 1)) as u8)
}

/// Reading a little-endian `i16` from `b`.
#[verifier::opaque]
pub open spec fn rd_i16(b: Seq<u8>) -> Result<(i16, Seq<u8>), ProtoErrorView> {
    if b.len() >= 2 {
        Ok((signed_of(le_value(b.take(2)), 16) as i16, b.skip(2)))
    } else {
        Err(short(2, b.len()))
    }
}

/// The `count` little-endian `i16`s stored at the front of `b`.
pub open spec fn elems_i16(b: Seq<u8>, count: nat) -> Seq<i16> {
    Seq::new(count, |i: int| signed_of(le_value(b.subrange(2 * i, 2 * i + 2)), 16) as i16)
}

/// Reading a little-endian `u16` from `b`.
#[verifier::opaque]
pub open spec fn rd_u16(b: Seq<u8>) -> Result<(u16, Seq<u8>), ProtoErrorView> {
    if b.len() >= 2 {
        Ok((le_value(b.take(2)) as u16, b.skip(2)))
    } else {
        Err(short(2, b.len()))
    }
}

/// The `count` little-endian `u16`s stored at the front of `b`.
pub open spec fn elems_u16(b: Seq<u8>, count: nat) -> Seq<u16> {
    Seq::new(count, |i: int| le_value(b.subrange(2 * i, 2 * i + 2)) as u16)
}

/// Reading a little-endian `i32` from `b`.
#[verifier::opaque]
pub open spec fn rd_i32(b: Seq<u8>) -> Result<(i32, Seq<u8>), ProtoErrorView> {
    if b.len() >= 4 {
        Ok((signed_of(le_value(b.take(4)), 32) as i32, b.skip(4)))
    } else {
        Err(short(4, b.len()))
    }
}

/// The `count` little-endian `i32`s stored at the front of `b`.
pub open spec fn elems_i32(b: Seq<u8>, count: nat) -> Seq<i32> {
    Seq::new(count, |i: int| signed_of(le_value(b.subrange(4 * i, 4 * i + 4)), 32) as i32)
}

/// Reading a little-endian `u32` from `b`.
#[verifier::opaque]
pub open spec fn rd_u32(b: Seq<u8>) -> Result<(u32, Seq<u8>), ProtoErrorView> {
    if b.len() >= 4 {
        Ok((le_value(b.take(4)) as u32, b.skip(4)))
    } else {
        Err(short(4, b.len()))
    }
}

/// The `count` little-endian `u32`s stored at the front of `b`.
pub open spec fn elems_u32(b: Seq<u8>, count: nat) -> Seq<u32> {
    Seq::new(count, |i: int| le_value(b.subrange(4 * i, 4 * i + 4)) as u32)
}

/// Reading a little-endian `i64` from `b`.
#[verifier::opaque]
pub open spec fn rd_i64(b: Seq<u8>) -> Result<(i64, Seq<u8>), ProtoErrorView> {
    if b.len() >= 8 {
        Ok((signed_of(le_value(b.take(8)), 64) as i64, b.skip(8)))
    } else {
        Err(short(8, b.len()))
    }
}

/// The `count` little-endian `i64`s stored at the front of `b`.
pub open spec fn elems_i64(b: Seq<u8>, count: nat) -> Seq<i64> {
    Seq::new(count, |i: int| signed_of(le_value(b.subrange(8 * i, 8 * i + 8)), 64) as i64)
}

/// Reading a little-endian `u64` from `b`.
#[verifier::opaque]
pub open spec fn rd_u64(b: Seq<u8>) -> Result<(u64, Seq<u8>), ProtoErrorView> {
    if b.len() >= 8 {
        Ok((le_value(b.take(8)) as u64, b.skip(8)))
    } else {
        Err(short(8, b.len()))
    }
}

/// The `count` little-endian `u64`s stored at the front of `b`.
pub open spec fn elems_u64(b: Seq<u8>, count: nat) -> Seq<u64> {
    Seq::new(count, |i: int| le_value(b.subrange(8 * i, 8 * i + 8)) as u64)
}

/// Reading a little-endian `i128` from `b`.
#[verifier::opaque]
pub open spec fn rd_i128(b: Seq<u8>) -> Result<(i128, Seq<u8>), ProtoErrorView> {
    if b.len() >= 16 {
        Ok((signed_of(le_value(b.take(16)), 128) as i128, b.skip(16)))
    } else {
        Err(short(16, b.len()))
    }
}

/// The `count` little-endian `i128`s stored at the front of `b`.
pub open spec fn elems_i128(b: Seq<u8>, count: nat) -> Seq<i128> {
    Seq::new(count, |i: int| signed_of(le_value(b.subrange(16 * i, 16 * i + 16)), 128) as i128)
}

/// Reading a little-endian `u128` from `b`.
#[verifier::opaque]
pub open spec fn rd_u128(b: Seq<u8>) -> Result<(u128, Seq<u8>), ProtoErrorView> {
    if b.len() >= 16 {
        Ok((le_value(b.take(16)) as u128, b.skip(16)))
    } else {
        Err(short(16, b.len()))
    }
}

/// The `count` little-endian `u128`s stored at the front of `b`.
pub open spec fn elems_u128(b: Seq<u8>, count: nat) -> Seq<u128> {
    Seq::new(count, |i: int| le_value(b.subrange(16 * i, 16 * i + 16)) as u128)
}

/// Reading a PTP string from `b`.
#[verifier::opaque]
pub open spec fn rd_str(b: Seq<u8>) -> Result<(Seq<char>, Seq<u8>), ProtoErrorView> {
    match ptp_string_read(b).0 {
        Ok(s) => Ok((s, ptp_string_read(b).1)),
        Err(e) => Err(e@),
    }
}

/// Reading a count-prefixed `u16` array from `b`.
#[verifier::opaque]
pub open spec fn rd_u16_array(b: Seq<u8>) -> Result<(Seq<u16>, Seq<u8>), ProtoErrorView> {
    match array_read_error(b, 2) {
        Some((e, _)) => Err(e@),
        None => Ok(
            (u16s_of(b.skip(4), array_count(b)), b.skip(4).skip((array_count(b) * 2) as int)),
        ),
    }
}

/// Reading a count-prefixed `u32` array from `b`.
#[verifier::opaque]
pub open spec fn rd_u32_array(b: Seq<u8>) -> Result<(Seq<u32>, Seq<u8>), ProtoErrorView> {
    match array_read_error(b, 4) {
        Some((e, _)) => Err(e@),
        None => Ok(
            (u32s_of(b.skip(4), array_count(b)), b.skip(4).skip((array_count(b) * 4) as int)),
        ),
    }
}

/// Read a `i8` (see [`rd_i8`]).
pub fn get_i8(buf: &mut &[u8]) -> (r: Result<i8, ProtoError>)
    ensures
        match rd_i8(old(buf)@) {
            Ok((v, rest)) => r == Ok::<i8, ProtoError>(v) && final(buf)@ == rest,
            Err(e) => r matches Err(x) && x@ == e,
        },
{
    proof {
        reveal(rd_i8);
    }
    read_i8(buf)
}

/// Read a `u8` (see [`rd_u8`]).
pub fn get_u8(buf: &mut &[u8]) -> (r: Result<u8, ProtoError>)
    ensures
        match rd_u8(old(buf)@) {
            Ok((v, rest)) => r == Ok::<u8, ProtoError>(v) && final(buf)@ == rest,
            Err(e) => r matches Err(x) && x@ == e,
        },
{
    proof {
        reveal(rd_u8);
    }
    read_u8(buf)
}

/// Read a `i16` (see [`rd_i16`]).
pub fn get_i16(buf: &mut &[u8]) -> (r: Result<i16, ProtoError>)
    ensures
        match rd_i16(old(buf)@) {
            Ok((v, rest)) => r == Ok::<i16, ProtoError>(v) && final(buf)@ == rest,
            Err(e) => r matches Err(x) && x@ == e,
        },
{
    proof {
        reveal(rd_i16);
    }
    read_i16(buf)
}

/// Read a `u16` (see [`rd_u16`]).
pub fn get_u16(buf: &mut &[u8]) -> (r: Result<u16, ProtoError>)
    ensures
        match rd_u16(old(buf)@) {
            Ok((v, rest)) => r == Ok::<u16, ProtoError>(v) && final(buf)@ == rest,
            Err(e) => r matches Err(x) && x@ == e,
        },
{
    proof {
        reveal(rd_u16);
    }
    read_u16(buf)
}

/// Read a `i32` (see [`rd_i32`]).
pub fn get_i32(buf: &mut &[u8]) -> (r: Result<i32, ProtoError>)
    ensures
        match rd_i32(old(buf)@) {
            Ok((v, rest)) => r == Ok::<i32, ProtoError>(v) && final(buf)@ == rest,
            Err(e) => r matches Err(x) && x@ == e,
        },
{
    proof {
        reveal(rd_i32);
    }
    read_i32(buf)
}

/// Read a `u32` (see [`rd_u32`]).
pub fn get_u32(buf: &mut &[u8]) -> (r: Result<u32, ProtoError>)
    ensures
        match rd_u32(old(buf)@) {
            Ok((v, rest)) => r == Ok::<u32, ProtoError>(v) && final(buf)@ == rest,
            Err(e) => r matches Err(x) && x@ == e,
        },
{
    proof {
        reveal(rd_u32);
    }
    read_u32(buf)
}

/// Read a `i64` (see [`rd_i64`]).
pub fn get_i64(buf: &mut &[u8]) -> (r: Result<i64, ProtoError>)
    ensures
        match rd_i64(old(buf)@) {
            Ok((v, rest)) => r == Ok::<i64, ProtoError>(v) && final(buf)@ == rest,
            Err(e) => r matches Err(x) && x@ == e,
        },
{
    proof {
        reveal(rd_i64);
    }
    read_i64(buf)
}

/// Read a `u64` (see [`rd_u64`]).
pub fn get_u64(buf: &mut &[u8]) -> (r: Result<u64, ProtoError>)
    ensures
        match rd_u64(old(buf)@) {
            Ok((v, rest)) => r == Ok::<u64, ProtoError>(v) && final(buf)@ == rest,
            Err(e) => r matches Err(x) && x@ == e,
        },
{
    proof {
        reveal(rd_u64);
    }
    read_u64(buf)
}

/// Read a `i128` (see [`rd_i128`]).
pub fn get_i128(buf: &mut &[u8]) -> (r: Result<i128, ProtoError>)
    ensures
        match rd_i128(old(buf)@) {
            Ok((v, rest)) => r == Ok::<i128, ProtoError>(v) && final(buf)@ == rest,
            Err(e) => r matches Err(x) && x@ == e,
        },
{
    proof {
        reveal(rd_i128);
    }
    read_i128(buf)
}

/// Read a `u128` (see [`rd_u128`]).
pub fn get_u128(buf: &mut &[u8]) -> (r: Result<u128, ProtoError>)
    ensures
        match rd_u128(old(buf)@) {
            Ok((v, rest)) => r == Ok::<u128, ProtoError>(v) && final(buf)@ == rest,
            Err(e) => r matches Err(x) && x@ == e,
        },
{
    proof {
        reveal(rd_u128);
    }
    read_u128(buf)
}

/// Read a PTP string (see [`rd_str`]).
pub fn get_str(buf: &mut &[u8]) -> (r: Result<String, ProtoError>)
    ensures
        match rd_str(old(buf)@) {
            Ok((v, rest)) => r matches Ok(x) && x@ == v && final(buf)@ == rest,
            Err(e) => r matches Err(x) && x@ == e,
        },
{
    proof {
        reveal(rd_str);
    }
    decode_string(buf)
}

/// Read a count-prefixed `u16` array (see [`rd_u16_array`]).
pub fn get_u16_array(buf: &mut &[u8]) -> (r: Result<Vec<u16>, ProtoError>)
    ensures
        match rd_u16_array(old(buf)@) {
            Ok((v, rest)) => r matches Ok(x) && x@ == v && final(buf)@ == rest,
            Err(e) => r matches Err(x) && x@ == e,
        },
{
    proof {
        reveal(rd_u16_array);
    }
    read_u16_array(buf)
}

/// Read a count-prefixed `u32` array (see [`rd_u32_array`]).
pub fn get_u32_array(buf: &mut &[u8]) -> (r: Result<Vec<u32>, ProtoError>)
    ensures
        match rd_u32_array(old(buf)@) {
            Ok((v, rest)) => r matches Ok(x) && x@ == v && final(buf)@ == rest,
            Err(e) => r matches Err(x) && x@ == e,
        },
{
    proof {
        reveal(rd_u32_array);
    }
    read_u32_array(buf)
}

/// A `u8` written little-endian reads back, leaving what follows.
pub proof fn lemma_rd_u8_of(x: u8, rest: Seq<u8>)
    ensures
        rd_u8(le_u(x as int, 1) + rest) == Ok::<(u8, Seq<u8>), ProtoErrorView>((x, rest)),
{
    reveal(rd_u8);
    lemma_pow256_16();
    lemma_le_roundtrip(x as nat, 1);
    let b = le_u(x as int, 1) + rest;
    assert(b.take(1) =~= le_u(x as int, 1));
    assert(b.skip(1) =~= rest);
}

/// A `u16` written little-endian reads back, leaving what follows.
pub proof fn lemma_rd_u16_of(x: u16, rest: Seq<u8>)
    ensures
        rd_u16(le_u(x as int, 2) + rest) == Ok::<(u16, Seq<u8>), ProtoErrorView>((x, rest)),
{
    reveal(rd_u16);
    lemma_pow256_16();
    lemma_le_roundtrip(x as nat, 2);
    let b = le_u(x as int, 2) + rest;
    assert(b.take(2) =~= le_u(x as int, 2));
    assert(b.skip(2) =~= rest);
}

/// A `u32` written little-endian reads back, leaving what follows.
pub proof fn lemma_rd_u32_of(x: u32, rest: Seq<u8>)
    ensures
        rd_u32(le_u(x as int, 4) + rest) == Ok::<(u32, Seq<u8>), ProtoErrorView>((x, rest)),
{
    reveal(rd_u32);
    lemma_pow256_16();
    lemma_le_roundtrip(x as nat, 4);
    let b = le_u(x as int, 4) + rest;
    assert(b.take(4) =~= le_u(x as int, 4));
    assert(b.skip(4) =~= rest);
}

/// A `u64` written little-endian reads back, leaving what follows.
pub proof fn lemma_rd_u64_of(x: u64, rest: Seq<u8>)
    ensures
        rd_u64(le_u(x as int, 8) + rest) == Ok::<(u64, Seq<u8>), ProtoErrorView>((x, rest)),
{
    reveal(rd_u64);
    lemma_pow256_16();
    lemma_le_roundtrip(x as nat, 8);
    let b = le_u(x as int, 8) + rest;
    assert(b.take(8) =~= le_u(x as int, 8));
    assert(b.skip(8) =~= rest);
}

/// A PTP string within the length limit reads back, leaving what follows.
pub proof fn lemma_rd_str_of(x: Seq<char>, rest: Seq<u8>)
    requires
        utf16_encode(x).len() <= max_content_units(),
    ensures
        rd_str(ptp_string_bytes(x) + rest) == Ok::<(Seq<char>, Seq<u8>), ProtoErrorView>((x, rest)),
{
    reveal(rd_str);
    lemma_ptp_string_roundtrip(x, rest);
}

} // verus!
