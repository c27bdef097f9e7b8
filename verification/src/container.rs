//! The 12-byte little-endian MTP bulk container header and its framing.
//!
//! Wire layout (little-endian), 12 bytes:
//! ```text
//!   offset 0  u32  Length          (header + payload; 0xFFFFFFFF saturated)
//!   offset 4  u16  Type            (1=Command 2=Data 3=Response 4=Event)
//!   offset 6  u16  Code            (op / response / event code)
//!   offset 8  u32  TransactionID
//! ```
use vstd::prelude::*;
use crate::codec::{
    le_u, le_value, lemma_le_roundtrip, lemma_pow256_16, lemma_read_bytes, read_u16, read_u32,
    truncated, write_u16, write_u32,
};
use crate::error::ProtoError;

verus! {

/// Length of the bulk container header in bytes.
pub const HDR_LEN: u32 = 12;

/// Maximum number of `u32` parameters in a command/response container.
pub const MAX_PARAMS: usize = 5;

/// The kind of a bulk container, from the header `Type` field.
#[derive(Clone, Copy, Debug, PartialEq, Eq, Structural)]
pub enum ContainerKind {
    Command,
    Data,
    Response,
    Event,
}

/// The wire value of a container kind.
pub open spec fn kind_code(k: ContainerKind) -> u16 {
    match k {
        ContainerKind::Command => 1,
        ContainerKind::Data => 2,
        ContainerKind::Response => 3,
        ContainerKind::Event => 4,
    }
}

/// The container kind a wire `Type` value names, if any.
pub open spec fn kind_of(v: u16) -> Option<ContainerKind> {
    if v == 1 {
        Some(ContainerKind::Command)
    } else if v == 2 {
        Some(ContainerKind::Data)
    } else if v == 3 {
        Some(ContainerKind::Response)
    } else if v == 4 {
        Some(ContainerKind::Event)
    } else {
        None
    }
}

impl Default for ContainerKind {
    /// Outgoing requests start as commands.
    fn default() -> (k: Self)
        ensures
            k == ContainerKind::Command,
    {
        ContainerKind::Command
    }
}

impl ContainerKind {
    /// The wire `Type` value of this kind.
    pub fn as_u16(self) -> (v: u16)
        ensures
            v == kind_code(self),
    {
        match self {
            ContainerKind::Command => 1,
            ContainerKind::Data => 2,
            ContainerKind::Response => 3,
            ContainerKind::Event => 4,
        }
    }

    /// The kind a wire `Type` value names; any value outside 1..=4 is refused.
    pub fn from_u16(v: u16) -> (r: Result<ContainerKind, ProtoError>)
        ensures
            r == (match kind_of(v) {
                Some(k) => Ok::<ContainerKind, ProtoError>(k),
                None => Err(ProtoError::BadContainerType(v)),
            }),
    {
        match v {
            1 => Ok(ContainerKind::Command),
            2 => Ok(ContainerKind::Data),
            3 => Ok(ContainerKind::Response),
            4 => Ok(ContainerKind::Event),
            other => Err(ProtoError::BadContainerType(other)),
        }
    }
}

/// An MTP request/response/event container. `params` holds up to
/// [`MAX_PARAMS`] values; header encode/decode never touch them.
#[derive(Clone, Debug, PartialEq, Eq)]
pub struct Container {
    pub kind: ContainerKind,
    pub code: u16,
    pub transaction_id: u32,
    pub params: Vec<u32>,
}

impl Default for Container {
    /// An empty command: code 0, transaction 0, no parameters.
    fn default() -> (c: Self)
        ensures
            c.kind == ContainerKind::Command,
            c.code == 0,
            c.transaction_id == 0,
            c.params@.len() == 0,
    {
        Container { kind: ContainerKind::Command, code: 0, transaction_id: 0, params: Vec::new() }
    }
}

/// The `Length` field for `payload_len` bytes after the header: the total,
/// saturated to `0xFFFFFFFF` when it does not fit in 32 bits.
pub open spec fn header_length(payload_len: u64) -> u32 {
    if 12 + payload_len > 0xFFFF_FFFF {
        0xFFFF_FFFF
    } else {
        (12 + payload_len) as u32
    }
}

/// The 12 header bytes for the given fields and `Length` value.
pub open spec fn header_bytes(kind: ContainerKind, code: u16, tid: u32, length: u32) -> Seq<u8> {
    le_u(length as int, 4) + le_u(kind_code(kind) as int, 2) + le_u(code as int, 2) + le_u(
        tid as int,
        4,
    )
}

/// What a header decode yields from `b`: kind, code, transaction id and the
/// raw `Length`, or the error for a short buffer or an unknown type.
pub open spec fn decode_header_spec(b: Seq<u8>) -> Result<(ContainerKind, u16, u32, u32), ProtoError> {
    if b.len() < 12 {
        Err(truncated(12, b.len()))
    } else {
        let ty = le_value(b.subrange(4, 6)) as u16;
        match kind_of(ty) {
            None => Err(ProtoError::BadContainerType(ty)),
            Some(k) => Ok(
                (
                    k,
                    le_value(b.subrange(6, 8)) as u16,
                    le_value(b.subrange(8, 12)) as u32,
                    le_value(b.subrange(0, 4)) as u32,
                ),
            ),
        }
    }
}

impl Container {
    /// Encode the 12-byte header for a container carrying `payload_len` bytes
    /// after the header; `Length` is saturated (see [`header_length`]).
    pub fn encode_header(&self, payload_len: u64) -> (h: [u8; 12])
        ensures
            h@ == header_bytes(self.kind, self.code, self.transaction_id, header_length(payload_len)),
    {
        let length: u32 = if payload_len > 0xFFFF_FFFF - 12 {
            0xFFFF_FFFF
        } else {
            (payload_len + 12) as u32
        };
        let mut v: Vec<u8> = Vec::new();
        write_u32(length, &mut v);
        write_u16(self.kind.as_u16(), &mut v);
        write_u16(self.code, &mut v);
        write_u32(self.transaction_id, &mut v);
        proof {
            crate::codec::lemma_le_bytes_len(length as nat, 4);
            crate::codec::lemma_le_bytes_len(kind_code(self.kind) as nat, 2);
            crate::codec::lemma_le_bytes_len(self.code as nat, 2);
            crate::codec::lemma_le_bytes_len(self.transaction_id as nat, 4);
            assert(v@.len() == 12);
        }
        let h: [u8; 12] = [
            v[0], v[1], v[2], v[3], v[4], v[5], v[6], v[7], v[8], v[9], v[10], v[11],
        ];
        proof {
            assert(h@ =~= v@);
        }
        h
    }

    /// Decode the 12-byte header from the front of `buf`; `params` is left
    /// empty and the raw `Length` is returned beside the container.
    pub fn decode_header(buf: &[u8]) -> (r: Result<(Container, u32), ProtoError>)
        ensures
            match (r, decode_header_spec(buf@)) {
                (Ok((c, len)), Ok((k, code, tid, l))) => c.kind == k && c.code == code
                    && c.transaction_id == tid && c.params@.len() == 0 && len == l,
                (Err(e), Err(f)) => e == f,
                _ => false,
            },
    {
        if buf.len() < 12 {
            return Err(ProtoError::Truncated { need: 12, have: buf.len() });
        }
        let mut cur: &[u8] = buf;
        proof {
            lemma_pow256_16();
            assert(buf@.take(4) =~= buf@.subrange(0, 4));
            assert(buf@.skip(4).take(2) =~= buf@.subrange(4, 6));
            assert(buf@.skip(4).skip(2).take(2) =~= buf@.subrange(6, 8));
            assert(buf@.skip(4).skip(2).skip(2).take(4) =~= buf@.subrange(8, 12));
        }
        let length = match read_u32(&mut cur) {
            Ok(v) => v,
            Err(e) => return Err(e),
        };
        let ty = match read_u16(&mut cur) {
            Ok(v) => v,
            Err(e) => return Err(e),
        };
        let code = match read_u16(&mut cur) {
            Ok(v) => v,
            Err(e) => return Err(e),
        };
        let tid = match read_u32(&mut cur) {
            Ok(v) => v,
            Err(e) => return Err(e),
        };
        let kind = match ContainerKind::from_u16(ty) {
            Ok(k) => k,
            Err(e) => return Err(e),
        };
        Ok((Container { kind, code, transaction_id: tid, params: Vec::new() }, length))
    }
}

/// Decoding an encoded header gives back its kind, code and transaction id,
/// and the saturated `Length` (see [`header_length`]).
pub proof fn lemma_header_roundtrip(kind: ContainerKind, code: u16, tid: u32, payload_len: u64)
    ensures
        decode_header_spec(header_bytes(kind, code, tid, header_length(payload_len))) == Ok::<
            (ContainerKind, u16, u32, u32),
            ProtoError,
        >((kind, code, tid, header_length(payload_len))),
{
    let len = header_length(payload_len);
    let b = header_bytes(kind, code, tid, len);
    lemma_pow256_16();
    lemma_le_roundtrip(len as nat, 4);
    lemma_le_roundtrip(kind_code(kind) as nat, 2);
    lemma_le_roundtrip(code as nat, 2);
    lemma_le_roundtrip(tid as nat, 4);
    assert(b.subrange(0, 4) =~= le_u(len as int, 4));
    assert(b.subrange(4, 6) =~= le_u(kind_code(kind) as int, 2));
    assert(b.subrange(6, 8) =~= le_u(code as int, 2));
    assert(b.subrange(8, 12) =~= le_u(tid as int, 4));
}


/// The container kinds have their PTP wire `Type` values (command 1, data 2,
/// response 3, event 4), and no other value names a kind.
pub proof fn lemma_kind_codes(v: u16)
    ensures
        kind_code(ContainerKind::Command) == 1,
        kind_code(ContainerKind::Data) == 2,
        kind_code(ContainerKind::Response) == 3,
        kind_code(ContainerKind::Event) == 4,
        kind_of(v) matches Some(k) ==> kind_code(k) == v,
        (v < 1 || v > 4) ==> kind_of(v) is None,
{
}

/// A header laid out on the wire as `Length` (32 bits), `Type` (16 bits),
/// `Code` (16 bits) and `TransactionID` (32 bits), all little-endian,
/// decodes field by field, whatever follows it.
pub proof fn lemma_header_layout(length: u32, ty: u16, code: u16, tid: u32, rest: Seq<u8>)
    requires
        1 <= ty <= 4,
    ensures
        decode_header_spec(le_u(length as int, 4) + le_u(ty as int, 2) + le_u(code as int, 2) + le_u(tid as int, 4)
            + rest) == Ok::<(ContainerKind, u16, u32, u32), ProtoError>((kind_of(ty)->0, code, tid, length)),
{
    let b = le_u(length as int, 4) + le_u(ty as int, 2) + le_u(code as int, 2) + le_u(tid as int, 4) + rest;
    lemma_pow256_16();
    lemma_le_roundtrip(length as nat, 4);
    lemma_le_roundtrip(ty as nat, 2);
    lemma_le_roundtrip(code as nat, 2);
    lemma_le_roundtrip(tid as nat, 4);
    assert(b.subrange(0, 4) =~= le_u(length as int, 4));
    assert(b.subrange(4, 6) =~= le_u(ty as int, 2));
    assert(b.subrange(6, 8) =~= le_u(code as int, 2));
    assert(b.subrange(8, 12) =~= le_u(tid as int, 4));
}

} // verus!
