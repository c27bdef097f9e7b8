//! The per-pipe rules of the USB transport: bulk OUT writes go out in
//! chunks of at most 16 KiB; an IN completion larger than the caller asked
//! for is never truncated, its overflow is kept and served first on the next
//! read; and how a failed transfer is reported. The transfers themselves are
//! I/O.
use vstd::prelude::*;
use crate::mtp::TransportError;

verus! {

/// The largest bulk OUT transfer issued per call.
pub const RW_BUF_SIZE: usize = 0x4000;

/// The end of the OUT chunk that starts at `offset` of a `len`-byte write:
/// at most [`RW_BUF_SIZE`] further, and never past the end.
pub fn out_chunk_end(offset: usize, len: usize) -> (end: usize)
    requires
        offset < len,
    ensures
        end == (if len - offset > RW_BUF_SIZE { offset + RW_BUF_SIZE } else { len as int }),
        offset < end <= len,
{
    if len - offset > RW_BUF_SIZE {
        offset + RW_BUF_SIZE
    } else {
        len
    }
}

/// The bytes of IN completions that did not fit the reader's buffer, in
/// arrival order.
pub struct InResidue {
    bytes: Vec<u8>,
}

impl View for InResidue {
    type V = Seq<u8>;

    closed spec fn view(&self) -> Seq<u8> {
        self.bytes@
    }
}

/// The smaller of two lengths.
pub open spec fn min_len(a: int, b: int) -> int {
    if a < b {
        a
    } else {
        b
    }
}

/// `v[from..]` as a new vector.
fn tail(v: &Vec<u8>, from: usize) -> (r: Vec<u8>)
    requires
        from <= v@.len(),
    ensures
        r@ == v@.skip(from as int),
{
    let mut r: Vec<u8> = Vec::new();
    let mut i = from;
    while i < v.len()
        invariant
            from <= i <= v@.len(),
            r@ == v@.subrange(from as int, i as int),
        decreases v@.len() - i,
    {
        r.push(v[i]);
        i = i + 1;
        proof {
            assert(r@ =~= v@.subrange(from as int, i as int));
        }
    }
    proof {
        assert(r@ =~= v@.skip(from as int));
    }
    r
}

/// `v[..n]` as a new vector.
fn head(v: &[u8], n: usize) -> (r: Vec<u8>)
    requires
        n <= v@.len(),
    ensures
        r@ == v@.take(n as int),
{
    let mut r: Vec<u8> = Vec::new();
    let mut i: usize = 0;
    while i < n
        invariant
            i <= n <= v@.len(),
            r@ == v@.take(i as int),
        decreases n - i,
    {
        r.push(v[i]);
        i = i + 1;
        proof {
            assert(r@ =~= v@.take(i as int));
        }
    }
    r
}

impl InResidue {
    /// Nothing kept.
    pub fn new() -> (r: InResidue)
        ensures
            r@ == Seq::<u8>::empty(),
    {
        InResidue { bytes: Vec::new() }
    }

    /// Whether nothing is kept.
    pub fn is_empty(&self) -> (b: bool)
        ensures
            b == (self@.len() == 0),
    {
        self.bytes.len() == 0
    }

    /// Hand out up to `max` kept bytes, oldest first.
    pub fn serve(&mut self, max: usize) -> (r: Vec<u8>)
        ensures
            r@ == old(self)@.take(min_len(max as int, old(self)@.len() as int)),
            final(self)@ == old(self)@.skip(min_len(max as int, old(self)@.len() as int)),
    {
        let n = if max < self.bytes.len() { max } else { self.bytes.len() };
        let out = head(self.bytes.as_slice(), n);
        let rest = tail(&self.bytes, n);
        self.bytes = rest;
        out
    }

    /// Hand a completion to a reader with room for `max` bytes: the first
    /// `max` bytes go out, the rest are kept after what was kept already.
    pub fn deliver(&mut self, data: &[u8], max: usize) -> (r: Vec<u8>)
        ensures
            r@ == data@.take(min_len(max as int, data@.len() as int)),
            final(self)@ == old(self)@ + data@.skip(min_len(max as int, data@.len() as int)),
    {
        let n = if max < data.len() { max } else { data.len() };
        let out = head(data, n);
        let mut i = n;
        let ghost start = self.bytes@;
        while i < data.len()
            invariant
                n <= i <= data@.len(),
                self.bytes@ == start + data@.subrange(n as int, i as int),
            decreases data@.len() - i,
        {
            self.bytes.push(data[i]);
            i = i + 1;
            proof {
                assert(self.bytes@ =~= start + data@.subrange(n as int, i as int));
            }
        }
        proof {
            assert(data@.subrange(n as int, data@.len() as int) =~= data@.skip(n as int));
        }
        out
    }
}

/// How a USB transfer failed, as the host stack reports it.
#[derive(Clone, Debug, PartialEq, Eq)]
pub enum TransferFailure {
    /// Cancelled, which is how a timed-out transfer ends.
    Cancelled,
    /// The device left the bus.
    Disconnected,
    /// The endpoint stalled.
    Stall,
    /// Anything else, with its description.
    Other(String),
}

/// The transport error a failed transfer is reported as: a cancelled
/// transfer is a timeout, a vanished device is gone, a stall a stall, and
/// anything else an I/O error with its description.
pub fn transport_error_of(f: TransferFailure) -> (e: TransportError)
    ensures
        match f {
            TransferFailure::Cancelled => e == TransportError::Timeout,
            TransferFailure::Disconnected => e == TransportError::DeviceGone,
            TransferFailure::Stall => e == TransportError::Stall,
            TransferFailure::Other(m) => e == TransportError::Io(m),
        },
{
    match f {
        TransferFailure::Cancelled => TransportError::Timeout,
        TransferFailure::Disconnected => TransportError::DeviceGone,
        TransferFailure::Stall => TransportError::Stall,
        TransferFailure::Other(m) => TransportError::Io(m),
    }
}

} // verus!
