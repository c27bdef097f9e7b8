//! Single-value datasets: the reply and request bodies of the ID, handle and
//! object-property operations.
use vstd::prelude::*;
use crate::codec::{le_u, write_u64};
use crate::error::{ProtoError, ProtoErrorView};
use crate::ptp_string::encode_string;
use crate::utf16::ptp_string_bytes;
use super::reader::{
    get_str, get_u16_array, get_u32_array, get_u64, rd_str, rd_u16_array, rd_u32_array, rd_u64,
};

verus! {

/// A count-prefixed array of `u32` (storage IDs, object handles).
#[derive(Clone, Debug, PartialEq)]
pub struct Uint32Array {
    pub values: Vec<u32>,
}

impl Default for Uint32Array {
    /// The empty array.
    fn default() -> (d: Self)
        ensures
            d.values@.len() == 0,
    {
        Uint32Array { values: Vec::new() }
    }
}

impl Uint32Array {
    /// Decode the array (see [`rd_u32_array`]).
    pub fn decode(buf: &mut &[u8]) -> (r: Result<Self, ProtoError>)
        ensures
            match rd_u32_array(old(buf)@) {
                Ok((v, rest)) => r matches Ok(d) && d.values@ == v && final(buf)@ == rest,
                Err(e) => r matches Err(x) && x@ == e,
            },
            r is Err ==> final(buf)@ == old(buf)@,
    {
        let start: &[u8] = *buf;
        match get_u32_array(buf) {
            Ok(values) => Ok(Uint32Array { values }),
            Err(e) => {
                *buf = start;
                Err(e)
            },
        }
    }
}

/// A count-prefixed array of `u16` (supported property codes).
#[derive(Clone, Debug, PartialEq)]
pub struct Uint16Array {
    pub values: Vec<u16>,
}

impl Default for Uint16Array {
    /// The empty array.
    fn default() -> (d: Self)
        ensures
            d.values@.len() == 0,
    {
        Uint16Array { values: Vec::new() }
    }
}

impl Uint16Array {
    /// Decode the array (see [`rd_u16_array`]).
    pub fn decode(buf: &mut &[u8]) -> (r: Result<Self, ProtoError>)
        ensures
            match rd_u16_array(old(buf)@) {
                Ok((v, rest)) => r matches Ok(d) && d.values@ == v && final(buf)@ == rest,
                Err(e) => r matches Err(x) && x@ == e,
            },
            r is Err ==> final(buf)@ == old(buf)@,
    {
        let start: &[u8] = *buf;
        match get_u16_array(buf) {
            Ok(values) => Ok(Uint16Array { values }),
            Err(e) => {
                *buf = start;
                Err(e)
            },
        }
    }
}

/// A single `u64` value (an object's 64-bit size).
#[derive(Clone, Copy, Debug, PartialEq, Eq)]
pub struct Uint64Value {
    pub value: u64,
}

impl Default for Uint64Value {
    /// Zero.
    fn default() -> (d: Self)
        ensures
            d.value == 0,
    {
        Uint64Value { value: 0 }
    }
}

impl Uint64Value {
    /// Decode the value (see [`rd_u64`]).
    pub fn decode(buf: &mut &[u8]) -> (r: Result<Self, ProtoError>)
        ensures
            match rd_u64(old(buf)@) {
                Ok((v, rest)) => r == Ok::<Self, ProtoError>(Uint64Value { value: v }) && final(buf)@ == rest,
                Err(e) => r matches Err(x) && x@ == e,
            },
            r is Err ==> final(buf)@ == old(buf)@,
    {
        let start: &[u8] = *buf;
        match get_u64(buf) {
            Ok(value) => Ok(Uint64Value { value }),
            Err(e) => {
                *buf = start;
                Err(e)
            },
        }
    }

    /// Encode the value as eight little-endian bytes.
    pub fn encode(&self, out: &mut Vec<u8>)
        ensures
            final(out)@ == old(out)@ + le_u(self.value as int, 8),
    {
        write_u64(self.value, out);
    }
}

/// A single PTP string value (an object's file name).
#[derive(Clone, Debug, PartialEq)]
pub struct StringValue {
    pub value: String,
}

impl Default for StringValue {
    /// The empty string.
    fn default() -> (d: Self)
        ensures
            d.value@.len() == 0,
    {
        StringValue { value: String::new() }
    }
}

impl StringValue {
    /// Decode the value (see [`rd_str`]).
    pub fn decode(buf: &mut &[u8]) -> (r: Result<Self, ProtoError>)
        ensures
            match rd_str(old(buf)@) {
                Ok((v, rest)) => r matches Ok(d) && d.value@ == v && final(buf)@ == rest,
                Err(e) => r matches Err(x) && x@ == e,
            },
    {
        match get_str(buf) {
            Ok(value) => Ok(StringValue { value }),
            Err(e) => Err(e),
        }
    }

    /// Encode the value as a PTP string.
    pub fn encode(&self, out: &mut Vec<u8>)
        ensures
            final(out)@ == old(out)@ + ptp_string_bytes(self.value@),
    {
        encode_string(self.value.as_str(), out);
    }
}

} // verus!
