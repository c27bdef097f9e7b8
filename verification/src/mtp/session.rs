//! The session: its state, the lifecycle (the `configure` recovery ladder,
//! `close`, `OpenSession`/`CloseSession`), and the transaction engine that
//! every operation runs through.
use vstd::prelude::*;
use vstd::string::StringExecFns;
use crate::codec::{ints_bytes, write_u32};
use crate::consts::{OpCode, RespCode, resp_code_name};
use crate::container::{
    Container, ContainerKind, decode_header_spec, header_bytes, header_length, kind_code,
};
use crate::decimal::{dec, hex_lower, push_dec, push_hex_lower};
use crate::error::{ProtoError, RcError};
use super::error::{MtpError, MtpErrorView, TransportError, poisons_spec};
use super::transport::{DataSink, DataSource, NullSink, ObjectProgress, Pause, SliceSource, Transport};

verus! {

/// Per-transfer timeout from `configure` onward, in milliseconds.
pub const SESSION_TIMEOUT_MS: u64 = 15000;

/// Timeout of the terminal zero-length packet, in milliseconds.
pub const ZLP_TIMEOUT_MS: u64 = 250;

/// Bytes moved per bulk call in the streaming loops.
pub const RW_BUF_SIZE: usize = 0x4000;

/// The state of an open session.
#[derive(Clone, Copy, Debug, PartialEq, Eq, Structural)]
pub struct SessionData {
    /// Next transaction ID to stamp.
    pub tid: u32,
    /// The session ID sent in `OpenSession`.
    pub sid: u32,
}

/// Whether the device sends a data container's 12-byte header in a packet of
/// its own (MTP 1.1 Appendix H). Detection only ever moves toward
/// `Separate`; only an explicit `force` moves away from it.
#[derive(Clone, Copy, Debug, PartialEq, Eq, Structural)]
pub enum SeparateHeader {
    /// Not yet determined; writes go out coalesced.
    Unknown,
    /// The device splits the header into its own packet.
    Separate,
    /// The device coalesces header and data (behaves as `Unknown`).
    Coalesced,
}

impl Default for SeparateHeader {
    fn default() -> (s: Self)
        ensures
            s == SeparateHeader::Unknown,
    {
        SeparateHeader::Unknown
    }
}

/// The moves detection may make: stay, go to `Separate`, or record a
/// coalesced device when nothing was known.
pub open spec fn detection_step(a: SeparateHeader, b: SeparateHeader) -> bool {
    b == a || b == SeparateHeader::Separate || (a == SeparateHeader::Unknown && b
        == SeparateHeader::Coalesced)
}

impl SeparateHeader {
    /// Whether the write path sends the header in a transfer of its own.
    pub fn is_separate(self) -> (b: bool)
        ensures
            b == (self == SeparateHeader::Separate),
    {
        match self {
            SeparateHeader::Separate => true,
            _ => false,
        }
    }

    /// A header-only first packet was seen: the device splits the header.
    pub fn detect_separate(&mut self)
        ensures
            *final(self) == SeparateHeader::Separate,
    {
        *self = SeparateHeader::Separate;
    }

    /// A coalesced multi-packet first packet was seen; never downgrades a
    /// prior `Separate`.
    pub fn detect_coalesced(&mut self)
        ensures
            *old(self) == SeparateHeader::Unknown ==> *final(self) == SeparateHeader::Coalesced,
            *old(self) != SeparateHeader::Unknown ==> *final(self) == *old(self),
    {
        match self {
            SeparateHeader::Unknown => {
                *self = SeparateHeader::Coalesced;
            },
            _ => {},
        }
    }

    /// Explicit override: `true` gives `Separate`, `false` gives `Unknown`.
    pub fn force(&mut self, separate: bool)
        ensures
            *final(self) == (if separate { SeparateHeader::Separate } else { SeparateHeader::Unknown }),
    {
        *self = if separate {
            SeparateHeader::Separate
        } else {
            SeparateHeader::Unknown
        };
    }
}

/// USB descriptor information about the device.
#[derive(Clone, Debug, PartialEq, Eq)]
pub struct UsbInfo {
    pub vendor_id: u16,
    pub product_id: u16,
    pub bcd_device: u16,
    pub manufacturer: String,
    pub product: String,
    pub serial: String,
}

impl Default for UsbInfo {
    /// Zero IDs and empty strings.
    fn default() -> (u: Self)
        ensures
            u.vendor_id == 0,
            u.product_id == 0,
            u.bcd_device == 0,
            u.manufacturer@.len() == 0,
            u.product@.len() == 0,
            u.serial@.len() == 0,
    {
        UsbInfo {
            vendor_id: 0,
            product_id: 0,
            bcd_device: 0,
            manufacturer: String::new(),
            product: String::new(),
            serial: String::new(),
        }
    }
}

/// A command container the session issued.
pub struct CommandView {
    pub code: u16,
    pub tid: u32,
    pub params: Seq<u32>,
}

/// One bulk-OUT transfer the engine issued: the bytes handed to the
/// transport, and the count it reported written (`None` when it failed).
pub struct WriteView {
    pub data: Seq<u8>,
    pub accepted: Option<usize>,
}

/// One bulk-IN transfer the engine issued: the most it asked for, and the
/// bytes it got (`None` when it failed).
pub struct ReadView {
    pub max_len: usize,
    pub got: Option<Seq<u8>>,
}

/// The bytes a read outcome carries, if it succeeded.
pub open spec fn got_of<E>(r: Result<Vec<u8>, E>) -> Option<Seq<u8>> {
    match r {
        Ok(v) => Some(v@),
        Err(_) => None,
    }
}

/// The length of the last successful read of `rs`; zero when there is none.
pub open spec fn last_read_len(rs: Seq<ReadView>) -> nat
    decreases rs.len(),
{
    if rs.len() == 0 {
        0
    } else {
        match rs.last().got {
            Some(b) => b.len(),
            None => last_read_len(rs.drop_last()),
        }
    }
}

/// The header fields and trailing bytes of the packet a read brought; `None`
/// when the read failed or its bytes are not a container packet.
pub open spec fn read_packet(x: ReadView) -> Option<(ContainerKind, u16, u32, u32, Seq<u8>)> {
    match x.got {
        Some(g) => match packet_spec(g) {
            Ok(p) => Some(p),
            Err(_) => None,
        },
        None => None,
    }
}

/// The transaction id and parameters of an OK response that a read brought;
/// `None` when the read failed, its bytes are not a packet, or the packet is
/// not an OK response (see [`rep_spec`]).
pub open spec fn ok_reply(x: ReadView) -> Option<(u32, Seq<u32>)> {
    match read_packet(x) {
        Some((k, code, tid, len, rest)) => match rep_spec(k, code, tid, len, rest) {
            Ok((c, t, p)) => if c == 0x2001 {
                Some((t, p))
            } else {
                None
            },
            Err(_) => None,
        },
        None => None,
    }
}

/// The device answered the transaction that took the session from `old` to
/// `new`, stamped `tid`, with an OK response: its last read brought one,
/// carrying that id when a session is open.
pub open spec fn answered_ok(old: SessionView, new: SessionView, tid: u32) -> bool {
    new.reads.len() > old.reads.len() && match ok_reply(new.reads.last()) {
        Some((t, _)) => old.session is None || t == tid,
        None => false,
    }
}

/// The code of the non-OK response a read brought; `None` when the read
/// failed, its bytes are not a packet, or the packet is not a well-formed
/// response with a code other than OK.
pub open spec fn rc_reply(x: ReadView) -> Option<u16> {
    match read_packet(x) {
        Some((k, code, tid, len, rest)) => match rep_spec(k, code, tid, len, rest) {
            Err(MtpErrorView::Rc(c)) => Some(c),
            _ => None,
        },
        None => None,
    }
}

/// The first of a transaction's reads `rs` brought a data packet, where the
/// operation (`has_dest` false) expects none.
pub open spec fn unexpected_data(rs: Seq<ReadView>, has_dest: bool) -> bool {
    !has_dest && rs.len() > 0 && match read_packet(rs[0]) {
        Some((k, _, _, _, _)) => k == ContainerKind::Data,
        None => false,
    }
}

/// The response code a transaction whose reads are `rs` is refused with:
/// that of the non-OK response its last read brought, unless it read
/// nothing or an unexpected data phase came first.
pub open spec fn rc_answer(rs: Seq<ReadView>, has_dest: bool) -> Option<u16> {
    if rs.len() > 0 && !unexpected_data(rs, has_dest) {
        rc_reply(rs.last())
    } else {
        None
    }
}

/// The response code of a response-code error.
pub open spec fn rc_of_err(e: Option<MtpErrorView>) -> Option<u16> {
    match e {
        Some(MtpErrorView::Rc(c)) => Some(c),
        _ => None,
    }
}

/// The error of an outcome, as a view.
pub open spec fn err_of<A>(r: Result<A, MtpError>) -> Option<MtpErrorView> {
    match r {
        Ok(_) => None,
        Err(e) => Some(e@),
    }
}

/// The parameters of the OK response the last read brought.
pub open spec fn reply_params(new: SessionView) -> Seq<u32> {
    match ok_reply(new.reads.last()) {
        Some((_, p)) => p,
        None => Seq::empty(),
    }
}

/// A read that failed, or whose bytes are not a container packet.
pub open spec fn read_failed(x: ReadView) -> bool {
    match x.got {
        None => true,
        Some(g) => packet_spec(g) is Err,
    }
}

/// The bytes the successful reads of `rs` brought, in order.
pub open spec fn read_bytes(rs: Seq<ReadView>) -> Seq<u8>
    decreases rs.len(),
{
    if rs.len() == 0 {
        Seq::empty()
    } else {
        read_bytes(rs.drop_last()) + match rs.last().got {
            Some(b) => b,
            None => Seq::empty(),
        }
    }
}

/// The bytes a list of bulk-OUT transfers offered, in order.
pub open spec fn write_bytes(w: Seq<WriteView>) -> Seq<u8>
    decreases w.len(),
{
    if w.len() == 0 {
        Seq::empty()
    } else {
        write_bytes(w.drop_last()) + w.last().data
    }
}

/// One more transfer adds its bytes.
proof fn lemma_write_bytes_push(w: Seq<WriteView>, x: WriteView)
    ensures
        write_bytes(w.push(x)) == write_bytes(w) + x.data,
{
    assert(w.push(x).drop_last() =~= w);
}

/// The payload of a data-in phase, from the reads that follow a command:
/// when the first packet holds a data container, the bytes after its header
/// and then those of every later read but the last, which brought the
/// response; nothing when the first packet is not a data container.
pub open spec fn data_in_payload(rs: Seq<ReadView>) -> Seq<u8> {
    if rs.len() == 0 {
        Seq::empty()
    } else {
        match rs[0].got {
            Some(g) => match packet_spec(g) {
                Ok((k, _, _, _, rest)) => if k == ContainerKind::Data {
                    rest + read_bytes(rs.skip(1).drop_last())
                } else {
                    Seq::empty()
                },
                Err(_) => Seq::empty(),
            },
            None => Seq::empty(),
        }
    }
}

/// One more read adds its bytes.
proof fn lemma_read_bytes_push(rs: Seq<ReadView>, x: ReadView)
    ensures
        read_bytes(rs.push(x)) == read_bytes(rs) + match x.got {
            Some(b) => b,
            None => Seq::empty(),
        },
{
    assert(rs.push(x).drop_last() =~= rs);
}

/// Every read of `rs` brought bytes (none failed at the transport).
pub open spec fn all_got(rs: Seq<ReadView>) -> bool {
    forall|i: int| 0 <= i < rs.len() ==> (#[trigger] rs[i]).got is Some
}

/// The reads of a data-in drain loop: each asks for 16 KiB, and every one
/// but the last got a full 16 KiB.
pub open spec fn drain_reads(rs: Seq<ReadView>) -> bool {
    &&& forall|i: int| 0 <= i < rs.len() ==> (#[trigger] rs[i]).max_len == RW_BUF_SIZE
    &&& forall|i: int|
        0 <= i < rs.len() - 1 ==> ((#[trigger] rs[i]).got matches Some(b) && b.len() == RW_BUF_SIZE)
}

/// The reads `rs` of a data-in drain, split after the `k` loop reads: then,
/// exactly when the packet size `ps` is non-zero and divides the length of
/// the last successful loop read (zero when there is none), one more read,
/// whose bytes (empty when it failed) are the `trailing` packet.
pub open spec fn drain_split(rs: Seq<ReadView>, k: int, ps: usize, trailing: Seq<u8>) -> bool {
    let due = ps != 0 && last_read_len(rs.take(k)) % (ps as nat) == 0;
    &&& 0 <= k <= rs.len()
    &&& drain_reads(rs.take(k))
    &&& due ==> (rs.len() == k + 1 && rs[k].max_len == RW_BUF_SIZE && trailing == match rs[k].got {
        Some(b) => b,
        None => Seq::empty(),
    })
    &&& !due ==> (rs.len() == k && trailing.len() == 0)
}

/// The packet a drain hands back after its `k` loop reads: the bytes of the
/// extra read when one was due (empty when it failed), else nothing.
pub open spec fn drain_trailing(rs: Seq<ReadView>, k: int, ps: usize) -> Seq<u8> {
    if ps != 0 && last_read_len(rs.take(k)) % (ps as nat) == 0 && k < rs.len() {
        match rs[k].got {
            Some(b) => b,
            None => Seq::empty(),
        }
    } else {
        Seq::empty()
    }
}

/// Whether more packets follow the first one of a data-in phase: it filled
/// a whole packet of `ps` bytes, or its container declares more than it
/// carried (the packet's length taken as a 32-bit `Length`).
pub open spec fn more_follows(first_n: usize, first_length: u32, ps: usize) -> bool {
    first_n == ps || (first_n as u32) < first_length
}

/// The reads of a data-in phase after its first packet: none but the
/// packet-sized read of the response when no more data follows; otherwise
/// a drain whose first `j` reads split after `k` loop reads (see
/// [`drain_split`]), after which a trailing packet that brought bytes is the
/// response itself, and an empty one is followed by one packet-sized read of
/// the response.
pub open spec fn data_in_reads(rs: Seq<ReadView>, more: bool, ps: usize, j: int, k: int) -> bool {
    if !more {
        rs.len() == 1 && rs[0].max_len == ps
    } else {
        &&& 0 <= j <= rs.len()
        &&& drain_split(rs.take(j), k, ps, drain_trailing(rs.take(j), k, ps))
        &&& drain_trailing(rs.take(j), k, ps).len() > 0 ==> rs.len() == j
        &&& drain_trailing(rs.take(j), k, ps).len() == 0 ==> (rs.len() == j + 1 && rs[j].max_len == ps)
    }
}

/// A drain's split fixes its trailing packet.
proof fn lemma_drain_trailing(rs: Seq<ReadView>, k: int, ps: usize, trailing: Seq<u8>)
    requires
        drain_split(rs, k, ps, trailing),
    ensures
        drain_trailing(rs, k, ps) == trailing,
{
}

/// `x` capped at `u64::MAX`.
pub open spec fn saturated(x: int) -> int {
    if x > u64::MAX {
        u64::MAX as int
    } else {
        x
    }
}

/// The count a transfer outcome reports, if it succeeded.
pub open spec fn accepted_of<E>(r: Result<usize, E>) -> Option<usize> {
    match r {
        Ok(n) => Some(n),
        Err(_) => None,
    }
}

/// Whether a data-out phase's transfers end with a zero-length one.
pub open spec fn zlp_sent(w: Seq<WriteView>) -> bool {
    w.len() >= 2 && w.last().data.len() == 0
}

/// The data transfers of a data-out phase: those after the header packet,
/// without a final zero-length one.
pub open spec fn data_chunks(w: Seq<WriteView>) -> Seq<WriteView> {
    if zlp_sent(w) {
        w.subrange(1, w.len() - 1)
    } else {
        w.skip(1)
    }
}

/// A source that fills every read and holds at least `n` bytes past what it
/// has yielded.
pub open spec fn source_full<R: DataSource>(src: R, n: u64) -> bool {
    &&& src.fills()
    &&& src.yielded().is_prefix_of(src.content())
    &&& src.content().len() - src.yielded().len() >= n
}

/// The size of the next 16 KiB transfer when `left` bytes are left.
pub open spec fn rw_chunk(left: int) -> int {
    if left < RW_BUF_SIZE {
        left
    } else {
        RW_BUF_SIZE as int
    }
}

/// The sizes of the transfers of a data-out phase of `size` bytes from a
/// source that fills every read: the first carries the header and as much
/// data as fits in one packet of `ps` bytes (none when the header goes
/// alone); each later one the next 16 KiB, or what is left; and together
/// they carry all `size` bytes unless the device took nothing of the last.
pub open spec fn data_out_sizes(w: Seq<WriteView>, size: u64, separate: bool, ps: usize) -> bool {
    let room: int = if !separate && ps > 12 {
        ps - 12
    } else {
        0
    };
    &&& w.len() >= 1
    &&& w[0].data.len() == 12 + (if size < room {
        size as int
    } else {
        room
    })
    &&& forall|i: int|
        1 <= i < 1 + data_chunks(w).len() ==> (#[trigger] w[i]).data.len() == rw_chunk(
            12 + size - write_bytes(w.take(i)).len(),
        )
    &&& (data_chunks(w).len() == 0 || data_chunks(w).last().accepted != Some(0usize)) ==> write_bytes(w).len()
        == 12 + size
}

/// The count the last of `c` reported written; zero when there is none.
pub open spec fn last_accepted(c: Seq<WriteView>) -> nat {
    if c.len() == 0 {
        0
    } else {
        match c.last().accepted {
            Some(a) => a as nat,
            None => 0,
        }
    }
}

/// The bulk-OUT transfers of a data-out phase of `size` bytes: first the
/// data header (`Length` = 12 + `size`, saturated), alone when the device
/// splits headers, else followed by at most what fills one packet of `ps`
/// bytes; then non-empty transfers of at most 16 KiB; then a zero-length
/// transfer exactly when the packet size is non-zero and divides the count
/// the last data transfer reported (zero when there was none).
pub open spec fn data_out_writes(
    w: Seq<WriteView>,
    code: u16,
    tid: u32,
    size: u64,
    separate: bool,
    ps: usize,
) -> bool {
    &&& w.len() >= 1
    &&& w[0].data.len() >= 12
    &&& w[0].data.take(12) == header_bytes(ContainerKind::Data, code, tid, header_length(size))
    &&& w[0].data.len() - 12 <= size
    &&& separate ==> w[0].data.len() == 12
    &&& !separate ==> w[0].data.len() <= (if ps > 12 { ps as int } else { 12 })
    &&& forall|i: int|
        0 <= i < data_chunks(w).len() ==> 0 < (#[trigger] data_chunks(w)[i]).data.len() <= RW_BUF_SIZE
    &&& zlp_sent(w) <==> (ps != 0 && last_accepted(data_chunks(w)) % (ps as nat) == 0)
}

/// The transfers a data-out phase appended, from those before the optional
/// zero-length packet and those after it.
proof fn lemma_data_out_writes(
    start: Seq<WriteView>,
    before: Seq<WriteView>,
    after: Seq<WriteView>,
    code: u16,
    tid: u32,
    size: u64,
    separate: bool,
    ps: usize,
    first: Seq<u8>,
    header: Seq<u8>,
    last: usize,
)
    requires
        before.len() >= start.len() + 1,
        before.take(start.len() as int) == start,
        before[start.len() as int].data == first,
        first.len() >= 12,
        first.take(12) == header,
        header == header_bytes(ContainerKind::Data, code, tid, header_length(size)),
        first.len() - 12 <= size,
        separate ==> first.len() == 12,
        !separate ==> first.len() <= (if ps > 12 { ps as int } else { 12 }),
        forall|j: int|
            start.len() + 1 <= j < before.len() ==> (#[trigger] before[j]).data.len() > 0 && before[j].data.len()
                <= RW_BUF_SIZE && before[j].accepted is Some,
        last as nat == last_accepted(before.skip((start.len() + 1) as int)),
        (ps != 0 && last % ps == 0) ==> (after.len() == before.len() + 1 && after.take(before.len() as int)
            == before && after.last().data.len() == 0),
        !(ps != 0 && last % ps == 0) ==> after == before,
    ensures
        after.len() >= start.len(),
        after.take(start.len() as int) == start,
        data_out_writes(after.skip(start.len() as int), code, tid, size, separate, ps),
{
    let w = after.skip(start.len() as int);
    let chunks = before.skip((start.len() + 1) as int);
    let cond = ps != 0 && last % ps == 0;
    assert(after.take(start.len() as int) =~= start) by {
        if cond {
            assert(after.take(start.len() as int) =~= after.take(before.len() as int).take(start.len() as int));
        }
    }
    assert(w[0] == before[start.len() as int]) by {
        if cond {
            assert(after[start.len() as int] == after.take(before.len() as int)[start.len() as int]);
        }
    }
    if cond {
        assert(zlp_sent(w));
        assert(data_chunks(w) =~= chunks) by {
            assert forall|i: int| 0 <= i < chunks.len() implies data_chunks(w)[i] == chunks[i] by {
                assert(after[start.len() + 1 + i] == after.take(before.len() as int)[start.len() + 1 + i]);
            }
        }
    } else {
        if w.len() >= 2 {
            assert(w.last() == before[before.len() - 1]);
            assert(w.last().data.len() > 0);
        }
        assert(!zlp_sent(w));
        assert(data_chunks(w) =~= chunks);
    }
    assert forall|i: int| 0 <= i < data_chunks(w).len() implies 0 < (#[trigger] data_chunks(w)[i]).data.len()
        <= RW_BUF_SIZE by {
        assert(data_chunks(w)[i] == before[start.len() + 1 + i]);
    }
}

/// The sizes of the transfers a data-out phase from a filling source
/// appended, from those before the optional zero-length packet and those
/// after it.
#[verifier::spinoff_prover]
#[verifier::rlimit(60)]
proof fn lemma_data_out_sizes(
    start: Seq<WriteView>,
    before: Seq<WriteView>,
    after: Seq<WriteView>,
    size: u64,
    separate: bool,
    ps: usize,
    last: usize,
)
    requires
        before.len() >= start.len() + 1,
        before.take(start.len() as int) == start,
        before[start.len() as int].data.len() == 12 + (if size < (if !separate && ps > 12 {
            ps - 12
        } else {
            0
        }) {
            size as int
        } else {
            if !separate && ps > 12 {
                ps - 12
            } else {
                0
            }
        }),
        forall|j: int|
            start.len() + 1 <= j < before.len() ==> (#[trigger] before[j]).data.len() > 0 && before[j].data.len()
                == rw_chunk(12 + size - write_bytes(before.subrange(start.len() as int, j)).len())
                && before[j].accepted is Some,
        write_bytes(before.skip(start.len() as int)).len() == 12 + size || (before.len() > start.len() + 1
            && before.last().accepted == Some(0usize)),
        (ps != 0 && last % ps == 0) ==> (after.len() == before.len() + 1 && after.take(before.len() as int)
            == before && after.last().data.len() == 0),
        !(ps != 0 && last % ps == 0) ==> after == before,
    ensures
        data_out_sizes(after.skip(start.len() as int), size, separate, ps),
{
    let w = after.skip(start.len() as int);
    let b = before.skip(start.len() as int);
    let cond = ps != 0 && last % ps == 0;
    if cond {
        assert(w.drop_last() =~= b) by {
            assert forall|i: int| 0 <= i < b.len() implies w.drop_last()[i] == b[i] by {
                assert(after[start.len() + i] == after.take(before.len() as int)[start.len() + i]);
            }
        }
        assert(w =~= b.push(w.last()));
        lemma_write_bytes_push(b, w.last());
        assert(zlp_sent(w));
        assert(data_chunks(w) =~= b.skip(1));
    } else {
        assert(w =~= b);
        if w.len() >= 2 {
            assert(w.last() == before[before.len() - 1]);
        }
        assert(!zlp_sent(w));
        assert(data_chunks(w) =~= b.skip(1));
    }
    assert(w[0] == before[start.len() as int]);
    assert forall|i: int| 1 <= i < 1 + data_chunks(w).len() implies (#[trigger] w[i]).data.len() == rw_chunk(
        12 + size - write_bytes(w.take(i)).len(),
    ) by {
        assert(w[i] == before[start.len() + i]);
        assert(w.take(i) =~= before.subrange(start.len() as int, start.len() + i));
    }
    if data_chunks(w).len() > 0 {
        assert(data_chunks(w).last() == before.last());
    }
}

/// The bulk-OUT transfers one transaction appends to the log `before`,
/// giving `after`: the command packet of `req` stamped with `tid`, and, when
/// the transaction has a data-out phase of `size` bytes and succeeded, that
/// phase's transfers (see [`data_out_writes`]); nothing more without one.
pub open spec fn transaction_writes(
    before: Seq<WriteView>,
    after: Seq<WriteView>,
    req: Container,
    tid: u32,
    has_src: bool,
    ok: bool,
    size: u64,
    separate: bool,
    ps: usize,
) -> bool {
    &&& after.len() > before.len()
    &&& after.take(before.len() as int) == before
    &&& after[before.len() as int].data == command_bytes(req.code, tid, req.params@)
    &&& !has_src ==> after.len() == before.len() + 1
    &&& (has_src && ok) ==> data_out_writes(after.skip((before.len() + 1) as int), req.code, tid, size, separate, ps)
}

/// What the contracts say of a session.
pub struct SessionView {
    /// Whether the connection is closed (or poisoned).
    pub closed: bool,
    /// The open session, if any.
    pub session: Option<SessionData>,
    /// The header-split state.
    pub separate_header: SeparateHeader,
    /// Per-transfer timeout in milliseconds.
    pub timeout_ms: u64,
    /// Every command container issued so far, in order.
    pub commands: Seq<CommandView>,
    /// The USB descriptor information installed for the device.
    pub usb_info: UsbInfo,
    /// Every bulk-OUT transfer issued so far, in order.
    pub writes: Seq<WriteView>,
    /// Every bulk-IN transfer issued so far, in order.
    pub reads: Seq<ReadView>,
    /// For each command issued, how many bulk-IN transfers came before it.
    pub command_reads: Seq<nat>,
    /// For each command issued, how many bulk-OUT transfers came before it.
    pub command_writes: Seq<nat>,
    /// Every device reset issued so far, in order, with its failure if it
    /// failed.
    pub resets: Seq<Option<TransportError>>,
    /// For each device reset, how many commands came before it.
    pub reset_commands: Seq<nat>,
    /// Whether the transport has been closed.
    pub transport_closed: bool,
    /// The transport's max packet size.
    pub packet_size: usize,
}

/// An open (or recoverable) MTP session over a transport.
pub struct MtpSession<T: Transport> {
    pub(crate) transport: T,
    pub(crate) session: Option<SessionData>,
    pub(crate) separate_header: SeparateHeader,
    pub(crate) timeout_ms: u64,
    pub(crate) usb_info: UsbInfo,
    pub(crate) closed: bool,
    pub(crate) commands: Ghost<Seq<CommandView>>,
    pub(crate) writes: Ghost<Seq<WriteView>>,
    pub(crate) reads: Ghost<Seq<ReadView>>,
    pub(crate) command_reads: Ghost<Seq<nat>>,
    pub(crate) command_writes: Ghost<Seq<nat>>,
    pub(crate) resets: Ghost<Seq<Option<TransportError>>>,
    pub(crate) reset_commands: Ghost<Seq<nat>>,
    pub(crate) transport_closed: Ghost<bool>,
}

impl<T: Transport> View for MtpSession<T> {
    type V = SessionView;

    closed spec fn view(&self) -> SessionView {
        SessionView {
            closed: self.closed,
            session: self.session,
            separate_header: self.separate_header,
            timeout_ms: self.timeout_ms,
            commands: self.commands@,
            usb_info: self.usb_info,
            writes: self.writes@,
            reads: self.reads@,
            command_reads: self.command_reads@,
            command_writes: self.command_writes@,
            resets: self.resets@,
            reset_commands: self.reset_commands@,
            transport_closed: self.transport_closed@,
            packet_size: self.transport.packet_size(),
        }
    }
}

/// The reads of the `i`-th transaction recorded in `v`: those issued after
/// its command and before the next command.
pub open spec fn tx_reads(v: SessionView, i: int) -> Seq<ReadView> {
    let end = if i + 1 < v.command_reads.len() {
        v.command_reads[i + 1] as int
    } else {
        v.reads.len() as int
    };
    v.reads.subrange(v.command_reads[i] as int, end)
}

/// The bulk-OUT transfers of the `i`-th transaction recorded in `v`: those
/// issued from its command on, before the next command.
pub open spec fn tx_writes(v: SessionView, i: int) -> Seq<WriteView> {
    let end = if i + 1 < v.command_writes.len() {
        v.command_writes[i + 1] as int
    } else {
        v.writes.len() as int
    };
    v.writes.subrange(v.command_writes[i] as int, end)
}

/// Every transfer of `ws` was taken whole: it reported its own length.
pub open spec fn all_taken(ws: Seq<WriteView>) -> bool {
    forall|i: int| 0 <= i < ws.len() ==> (#[trigger] ws[i]).accepted == Some(ws[i].data.len() as usize)
}

/// Every transfer of `ws` reported a count (none failed).
pub open spec fn all_accepted(ws: Seq<WriteView>) -> bool {
    forall|i: int| 0 <= i < ws.len() ==> (#[trigger] ws[i]).accepted is Some
}

/// The bulk-IN transfers a transaction makes once its command (and data-out
/// phase) went out, for packet size `ps`: first one read of one packet;
/// when every read brought bytes, nothing more if that packet is not a data
/// container, else the reads of its data-in phase (see [`data_in_reads`]),
/// which end with the response.
pub open spec fn tx_read_pattern(rs: Seq<ReadView>, ps: usize) -> bool {
    &&& rs.len() > 0
    &&& rs[0].max_len == ps
    &&& all_got(rs) ==> match read_packet(rs[0]) {
        Some((k, _, _, len, rest)) => if k == ContainerKind::Data {
            exists|j: int, kk: int|
                #[trigger] data_in_reads(rs.skip(1), more_follows((rest.len() + 12) as usize, len, ps), ps, j, kk)
        } else {
            rs.len() == 1
        },
        None => rs.len() == 1,
    }
}

/// The `i`-th transaction recorded in `v`, stamped `tid` in session state
/// `s`, was answered with an OK response (carrying `tid` when a session was
/// open), with no data phase where the operation (`has_dest` false) expects
/// none.
pub open spec fn tx_ok(v: SessionView, i: int, s: Option<SessionData>, tid: u32, has_dest: bool) -> bool {
    let rs = tx_reads(v, i);
    &&& rs.len() > 0
    &&& match ok_reply(rs.last()) {
        Some((t, _)) => s is None || t == tid,
        None => false,
    }
    &&& !unexpected_data(rs, has_dest)
}

/// An `OpenSession` command as the recovery ladder sends it: transaction ID
/// 0 and one odd session ID below 2^31.
pub open spec fn open_session_cmd(c: CommandView) -> bool {
    &&& c.code == OpCode::OPEN_SESSION
    &&& c.tid == 0
    &&& c.params.len() == 1
    &&& c.params[0] % 2 == 1
    &&& c.params[0] < 0x8000_0000
}

/// The `i`-th transaction of `v`, an `OpenSession` run outside a session,
/// was answered with an OK response and no data phase.
pub open spec fn open_ok(v: SessionView, i: int) -> bool {
    let rs = tx_reads(v, i);
    rs.len() > 0 && ok_reply(rs.last()) is Some && !unexpected_data(rs, false)
}

/// The session recovery ladder, run on a fresh session, left the logs `v`
/// and ended with `err`: an `OpenSession`; if the device refused it with
/// `SessionAlreadyOpened` (`0x201E`), a `CloseSession` with transaction ID 0
/// and a second `OpenSession`; if the last of these failed, exactly one
/// device reset and then one more `OpenSession`, whose outcome is the
/// ladder's. Every `OpenSession` goes out with transaction ID 0 and a fresh
/// odd session ID.
pub open spec fn recovery_ladder(v: SessionView, err: Option<MtpErrorView>) -> bool {
    let c = v.commands;
    let retried = rc_answer(tx_reads(v, 0), false) == Some(0x201Eu16);
    let last_try: int = if retried {
        2
    } else {
        0
    };
    &&& c.len() >= 1
    &&& v.command_reads.len() == c.len()
    &&& v.command_reads[0] == 0
    &&& v.reset_commands.len() == v.resets.len()
    &&& open_session_cmd(c[0])
    &&& retried ==> (c.len() >= 3 && c[1] == CommandView { code: OpCode::CLOSE_SESSION, tid: 0, params: seq![] }
        && open_session_cmd(c[2]))
    &&& if open_ok(v, last_try) {
        c.len() == last_try + 1 && v.resets.len() == 0 && err is None
    } else {
        &&& c.len() == last_try + 2
        &&& open_session_cmd(c[last_try + 1])
        &&& v.resets.len() == 1
        &&& v.reset_commands[0] == last_try + 1
        &&& (err is None <==> open_ok(v, last_try + 1))
        &&& rc_of_err(err) == rc_answer(tx_reads(v, last_try + 1), false)
        &&& err != Some(MtpErrorView::Closed)
    }
}

/// The transaction ID a request goes out with: the session's next ID when a
/// session is open, else the request's own.
pub open spec fn stamped_tid(s: Option<SessionData>, req_tid: u32) -> u32 {
    match s {
        Some(d) => d.tid,
        None => req_tid,
    }
}

/// The session after stamping one request: the next ID advances by one,
/// wrapping at 32 bits.
pub open spec fn advanced(s: Option<SessionData>) -> Option<SessionData> {
    match s {
        Some(d) => Some(
            SessionData { tid: if d.tid == u32::MAX { 0 } else { (d.tid + 1) as u32 }, sid: d.sid },
        ),
        None => None,
    }
}

/// The command record of a request as it goes out.
pub open spec fn command_of(req: Container, tid: u32) -> CommandView {
    CommandView { code: req.code, tid, params: req.params@ }
}

/// The bytes of a command container: a command header whose `Length`
/// counts the parameters, then each parameter little-endian.
pub open spec fn command_bytes(code: u16, tid: u32, params: Seq<u32>) -> Seq<u8> {
    header_bytes(ContainerKind::Command, code, tid, header_length((params.len() * 4) as u64))
        + ints_bytes(params.map_values(|p: u32| p as int), 4)
}

/// The name of a container type, for messages: the type's name, else `0x`
/// and the value in lowercase hex.
pub open spec fn usb_container_name_spec(t: u16) -> Seq<char> {
    if t == 0 {
        "CONTAINER_UNDEFINED"@
    } else if t == 1 {
        "CONTAINER_COMMAND"@
    } else if t == 2 {
        "CONTAINER_DATA"@
    } else if t == 3 {
        "CONTAINER_RESPONSE"@
    } else if t == 4 {
        "CONTAINER_EVENT"@
    } else if t == 512 {
        "BULK_HS_MAX_PACKET_LEN_READ"@
    } else {
        "0x"@ + hex_lower(t as nat)
    }
}

/// A code by its response-code name, else `0x` and lowercase hex.
pub open spec fn rc_or_hex_spec(code: u16) -> Seq<char> {
    match resp_code_name(code) {
        Some(n) => n,
        None => "0x"@ + hex_lower(code as nat),
    }
}

/// The message for a packet whose container type is not 1..=4.
pub open spec fn bad_packet_type_text(t: u16) -> Seq<char> {
    "got type "@ + dec(t as nat) + " ("@ + usb_container_name_spec(t)
        + ") in packet, want a valid container type."@
}

/// The message for a response phase that is not a response container.
pub open spec fn bad_response_type_text(t: u16) -> Seq<char> {
    "got type "@ + dec(t as nat) + " ("@ + usb_container_name_spec(t)
        + ") in response, want CONTAINER_RESPONSE."@
}

/// The message for a data phase that arrived for an operation expecting none.
pub open spec fn unexpected_data_text(code: u16) -> Seq<char> {
    "unexpected data for code "@ + rc_or_hex_spec(code)
}

/// The message for a response whose transaction ID is not the request's.
pub open spec fn tid_mismatch_text(got: u32, want: u32) -> Seq<char> {
    "transaction ID mismatch got "@ + hex_lower(got as nat) + " want "@ + hex_lower(want as nat)
}

/// What one received packet holds: its header fields and the bytes after the
/// header, or the error for a short packet or an unknown container type.
pub open spec fn packet_spec(data: Seq<u8>) -> Result<(ContainerKind, u16, u32, u32, Seq<u8>), MtpErrorView> {
    if data.len() < 12 {
        Err(MtpErrorView::Proto(crate::error::ProtoErrorView::Truncated { need: 12, have: data.len() as usize }))
    } else {
        match decode_header_spec(data) {
            Ok((k, code, tid, len)) => Ok((k, code, tid, len, data.skip(12))),
            Err(ProtoError::BadContainerType(t)) => Err(MtpErrorView::Sync(bad_packet_type_text(t))),
            Err(e) => Err(MtpErrorView::Proto(e@)),
        }
    }
}

/// What a response header, its raw `Length` and the bytes after it give: the
/// response container with its parameters, or the error. A non-response
/// type is a desync; a `Length` claiming more bytes than arrived is a
/// decode error; a non-OK code is a response-code error. Parameters are the
/// whole 32-bit words within the declared length.
pub open spec fn rep_spec(kind: ContainerKind, code: u16, tid: u32, length: u32, rest: Seq<u8>) -> Result<
    (u16, u32, Seq<u32>),
    MtpErrorView,
> {
    let rest_len = length - 12;
    if kind != ContainerKind::Response {
        Err(MtpErrorView::Sync(bad_response_type_text(kind_code(kind))))
    } else if rest_len > rest.len() {
        Err(
            MtpErrorView::Proto(
                crate::error::ProtoErrorView::Truncated { need: rest_len as usize, have: rest.len() as usize },
            ),
        )
    } else if code != 0x2001 {
        Err(MtpErrorView::Rc(code))
    } else {
        Ok((code, tid, crate::codec::u32s_of(rest, if rest_len > 0 { (rest_len / 4) as nat } else { 0 })))
    }
}

/// The name of a container type, for messages.
pub fn usb_container_name(ty: u16) -> (s: String)
    ensures
        s@ == usb_container_name_spec(ty),
{
    match ty {
        0x0000 => "CONTAINER_UNDEFINED".to_owned(),
        0x0001 => "CONTAINER_COMMAND".to_owned(),
        0x0002 => "CONTAINER_DATA".to_owned(),
        0x0003 => "CONTAINER_RESPONSE".to_owned(),
        0x0004 => "CONTAINER_EVENT".to_owned(),
        512 => "BULK_HS_MAX_PACKET_LEN_READ".to_owned(),
        other => {
            let mut s = "0x".to_owned();
            push_hex_lower(&mut s, other as u64);
            s
        },
    }
}

/// A code by its response-code name, else `0x` and lowercase hex.
pub fn rc_or_hex(code: u16) -> (s: String)
    ensures
        s@ == rc_or_hex_spec(code),
{
    match RespCode(code).name() {
        Some(n) => n.to_owned(),
        None => {
            let mut s = "0x".to_owned();
            push_hex_lower(&mut s, code as u64);
            s
        },
    }
}

fn type_message(t: u16, tail: &str) -> (s: String)
    ensures
        s@ == "got type "@ + dec(t as nat) + " ("@ + usb_container_name_spec(t) + tail@,
{
    let mut s = "got type ".to_owned();
    push_dec(&mut s, t as u64);
    s.append(" (");
    let name = usb_container_name(t);
    s.append(name.as_str());
    s.append(tail);
    s
}

/// Split one received packet into its header and the bytes after it (see
/// [`packet_spec`]).
pub fn parse_packet(data: &[u8]) -> (r: Result<(Container, u32, Vec<u8>), MtpError>)
    ensures
        match packet_spec(data@) {
            Ok((k, code, tid, len, rest)) => r matches Ok((c, l, v)) && c.kind == k && c.code == code
                && c.transaction_id == tid && c.params@.len() == 0 && l == len && v@ == rest,
            Err(e) => r matches Err(x) && x@ == e,
        },
{
    let n = data.len();
    if n < 12 {
        return Err(MtpError::Proto(ProtoError::Truncated { need: 12, have: n }));
    }
    let (header, length) = match Container::decode_header(data) {
        Ok(x) => x,
        Err(ProtoError::BadContainerType(t)) => {
            let msg = type_message(t, ") in packet, want a valid container type.");
            proof {
                reveal_strlit(") in packet, want a valid container type.");
            }
            return Err(MtpError::Sync(msg));
        },
        Err(e) => return Err(MtpError::Proto(e)),
    };
    let rest = slice_from(data, 12);
    Ok((header, length, rest))
}

/// The bytes of `data` from `start` on.
fn slice_from(data: &[u8], start: usize) -> (v: Vec<u8>)
    requires
        start <= data@.len(),
    ensures
        v@ == data@.skip(start as int),
{
    let mut v: Vec<u8> = Vec::new();
    let mut i = start;
    while i < data.len()
        invariant
            start <= i <= data@.len(),
            v@ == data@.subrange(start as int, i as int),
        decreases data@.len() - i,
    {
        v.push(data[i]);
        i = i + 1;
        proof {
            assert(v@ =~= data@.subrange(start as int, i as int));
        }
    }
    proof {
        assert(v@ =~= data@.skip(start as int));
    }
    v
}

/// Validate a response header and parse its parameters (see [`rep_spec`]).
pub fn decode_rep(header: &Container, length: u32, rest: &[u8]) -> (r: Result<Container, MtpError>)
    ensures
        match rep_spec(header.kind, header.code, header.transaction_id, length, rest@) {
            Ok((code, tid, params)) => r matches Ok(c) && c.kind == ContainerKind::Response
                && c.code == code && c.transaction_id == tid && c.params@ == params,
            Err(e) => r matches Err(x) && x@ == e,
        },
{
    match header.kind {
        ContainerKind::Response => {},
        _ => {
            let t = header.kind.as_u16();
            let msg = type_message(t, ") in response, want CONTAINER_RESPONSE.");
            proof {
                reveal_strlit(") in response, want CONTAINER_RESPONSE.");
            }
            return Err(MtpError::Sync(msg));
        },
    }
    let rest_len: usize = if length > 12 { (length - 12) as usize } else { 0 };
    if rest_len > rest.len() {
        return Err(MtpError::Proto(ProtoError::Truncated { need: rest_len, have: rest.len() }));
    }
    let mut params: Vec<u32> = Vec::new();
    if rest_len > 0 {
        let n_param = rest_len / 4;
        let mut cur: &[u8] = rest;
        let mut i: usize = 0;
        proof {
            assert(params@ =~= crate::codec::u32s_of(rest@, 0));
            assert(rest@.skip(0) =~= rest@);
        }
        while i < n_param
            invariant
                0 <= i <= n_param,
                4 * n_param <= rest@.len(),
                cur@ == rest@.skip(4 * i),
                params@ == crate::codec::u32s_of(rest@, i as nat),
            decreases n_param - i,
        {
            let ghost before = cur@;
            let p = match crate::codec::read_u32(&mut cur) {
                Ok(p) => p,
                Err(_) => {
                    proof {
                        assert(false);
                    }
                    return Err(MtpError::Closed);
                },
            };
            proof {
                assert(before.take(4) =~= rest@.subrange(4 * i, 4 * i + 4));
                assert(before.skip(4) =~= rest@.skip(4 * i + 4));
                assert(params@.push(p) =~= crate::codec::u32s_of(rest@, (i + 1) as nat));
            }
            params.push(p);
            i = i + 1;
        }
    }
    if header.code != 0x2001 {
        return Err(MtpError::Rc(RcError(RespCode(header.code))));
    }
    Ok(Container { kind: ContainerKind::Response, code: header.code, transaction_id: header.transaction_id, params })
}

/// The bytes of a command container (see [`command_bytes`]).
pub fn command_packet(req: &Container) -> (v: Vec<u8>)
    requires
        req.params@.len() <= 5,
    ensures
        v@ == command_bytes(req.code, req.transaction_id, req.params@),
{
    let cmd = Container {
        kind: ContainerKind::Command,
        code: req.code,
        transaction_id: req.transaction_id,
        params: Vec::new(),
    };
    let header = cmd.encode_header((req.params.len() * 4) as u64);
    let mut buf: Vec<u8> = Vec::new();
    let mut i: usize = 0;
    while i < 12
        invariant
            0 <= i <= 12,
            header@.len() == 12,
            buf@ == header@.take(i as int),
        decreases 12 - i,
    {
        buf.push(header[i]);
        i = i + 1;
        proof {
            assert(buf@ =~= header@.take(i as int));
        }
    }
    proof {
        assert(header@.take(12) =~= header@);
    }
    let ghost ints = req.params@.map_values(|p: u32| p as int);
    let mut j: usize = 0;
    proof {
        assert(ints.take(0) =~= Seq::<int>::empty());
        assert(buf@ =~= header@ + ints_bytes(ints.take(0), 4));
    }
    while j < req.params.len()
        invariant
            0 <= j <= req.params@.len(),
            ints == req.params@.map_values(|p: u32| p as int),
            buf@ == header@ + ints_bytes(ints.take(j as int), 4),
        decreases req.params@.len() - j,
    {
        let p = req.params[j];
        write_u32(p, &mut buf);
        proof {
            crate::codec::lemma_ints_bytes_push(ints.take(j as int), p as int, 4);
            assert(ints.take(j + 1) =~= ints.take(j as int).push(p as int));
            assert(crate::codec::le_u(p as int, 4) == crate::codec::le_i(p as int, 4));
        }
        j = j + 1;
    }
    proof {
        assert(ints.take(req.params@.len() as int) =~= ints);
    }
    buf
}

/// The request that closes the session.
fn close_session_req() -> (c: Container)
    ensures
        c.kind == ContainerKind::Command,
        c.code == OpCode::CLOSE_SESSION,
        c.transaction_id == 0,
        c.params@.len() == 0,
{
    Container {
        kind: ContainerKind::Command,
        code: OpCode::CLOSE_SESSION,
        transaction_id: 0,
        params: Vec::new(),
    }
}

/// `rand::random::<u32>()`: a value from the thread-local random generator.
/// Nothing is promised of it.
#[verifier::external_body]
fn random_u32() -> u32 {
    rand::random::<u32>()
}

/// Offer all of `data` to `dest`, as `write_all` does, stopping early if the
/// sink fails or takes nothing; returns the bytes it took.
fn write_all<S: DataSink>(dest: &mut S, data: &[u8]) -> (n: u64)
    ensures
        n <= data@.len(),
        final(dest).received() == old(dest).received() + data@.take(n as int),
        final(dest).takes_all() == old(dest).takes_all(),
        old(dest).takes_all() ==> n == data@.len(),
{
    let mut pos: usize = 0;
    proof {
        assert(data@.take(0) =~= Seq::<u8>::empty());
        assert(dest.received() =~= old(dest).received() + data@.take(0));
    }
    while pos < data.len()
        invariant
            0 <= pos <= data@.len(),
            dest.received() == old(dest).received() + data@.take(pos as int),
            dest.takes_all() == old(dest).takes_all(),
        ensures
            dest.received() == old(dest).received() + data@.take(pos as int),
            dest.takes_all() == old(dest).takes_all(),
            0 <= pos <= data@.len(),
            old(dest).takes_all() ==> pos == data@.len(),
        decreases data@.len() - pos,
    {
        let rest = slice_from(data, pos);
        match dest.write(rest.as_slice()) {
            Some(k) => {
                proof {
                    assert(data@.take(pos as int) + rest@.take(k as int) =~= data@.take(pos + k));
                }
                if k == 0 {
                    break;
                }
                pos = pos + k;
            },
            None => break,
        }
    }
    pos as u64
}

/// Copy up to `n` bytes from `src` to the end of `out`; a short or failed
/// read ends the copy.
fn copy_n<R: DataSource>(src: &mut R, n: u64, out: &mut Vec<u8>)
    ensures
        old(out)@.len() <= final(out)@.len() <= old(out)@.len() + n,
        final(out)@.take(old(out)@.len() as int) == old(out)@,
        final(src).yielded() == old(src).yielded() + final(out)@.skip(old(out)@.len() as int),
        final(src).content() == old(src).content(),
        old(src).yielded().is_prefix_of(old(src).content()) ==> final(src).yielded().is_prefix_of(final(src).content()),
        final(out)@.len() == old(out)@.len() + n || final(src).ended(),
        source_full(*old(src), n) ==> final(out)@.len() == old(out)@.len() + n,
        final(src).fills() == old(src).fills(),
{
    let mut remaining = n;
    proof {
        assert(out@.skip(old(out)@.len() as int) =~= Seq::<u8>::empty());
        assert(src.yielded() =~= old(src).yielded() + Seq::<u8>::empty());
    }
    while remaining > 0
        invariant
            remaining <= n,
            out@.len() == old(out)@.len() + (n - remaining),
            out@.take(old(out)@.len() as int) == old(out)@,
            src.yielded() == old(src).yielded() + out@.skip(old(out)@.len() as int),
            src.content() == old(src).content(),
            old(src).yielded().is_prefix_of(old(src).content()) ==> src.yielded().is_prefix_of(src.content()),
            src.fills() == old(src).fills(),
        ensures
            remaining <= n,
            src.fills() == old(src).fills(),
            source_full(*old(src), n) ==> remaining == 0,
            out@.len() == old(out)@.len() + (n - remaining),
            out@.take(old(out)@.len() as int) == old(out)@,
            src.yielded() == old(src).yielded() + out@.skip(old(out)@.len() as int),
            src.content() == old(src).content(),
            old(src).yielded().is_prefix_of(old(src).content()) ==> src.yielded().is_prefix_of(src.content()),
            remaining == 0 || src.ended(),
        decreases remaining,
    {
        let ghost before = out@;
        let want: usize = if remaining < RW_BUF_SIZE as u64 { remaining as usize } else { RW_BUF_SIZE };
        let chunk = match src.read(want) {
            Some(c) => c,
            None => break,
        };
        let m = chunk.len();
        if m == 0 {
            break;
        }
        let _ = out.write(chunk.as_slice());
        proof {
            assert(out@.skip(old(out)@.len() as int) =~= before.skip(old(out)@.len() as int) + chunk@);
        }
        remaining = remaining - m as u64;
    }
}

impl<T: Transport> MtpSession<T> {
    /// One bulk-OUT transfer, recorded.
    fn write_out(&mut self, data: &[u8], timeout_ms: u64) -> (r: Result<usize, TransportError>)
        ensures
            final(self)@ == (SessionView {
                writes: old(self)@.writes.push(WriteView { data: data@, accepted: accepted_of(r) }),
                ..old(self)@
            }),
            r matches Ok(n) ==> n <= data@.len(),
    {
        let r = self.transport.bulk_out(data, timeout_ms);
        let ghost acc = match r {
            Ok(n) => Some(n),
            Err(_) => None::<usize>,
        };
        self.writes = Ghost(self.writes@.push(WriteView { data: data@, accepted: acc }));
        r
    }

    /// One device reset, recorded.
    fn reset_in(&mut self) -> (r: Result<(), TransportError>)
        ensures
            final(self)@ == (SessionView {
                resets: old(self)@.resets.push(match r {
                    Ok(()) => None,
                    Err(e) => Some(e),
                }),
                reset_commands: old(self)@.reset_commands.push(old(self)@.commands.len()),
                ..old(self)@
            }),
    {
        let r = self.transport.reset();
        let ghost outcome = match &r {
            Ok(()) => None,
            Err(e) => Some(*e),
        };
        self.resets = Ghost(self.resets@.push(outcome));
        self.reset_commands = Ghost(self.reset_commands@.push(self.commands@.len()));
        r
    }

    /// One bulk-IN transfer, recorded.
    fn read_in(&mut self, max_len: usize, timeout_ms: u64) -> (r: Result<Vec<u8>, TransportError>)
        ensures
            final(self)@ == (SessionView {
                reads: old(self)@.reads.push(ReadView { max_len, got: got_of(r) }),
                ..old(self)@
            }),
            r matches Ok(v) ==> v@.len() <= max_len,
    {
        let r = self.transport.bulk_in(max_len, timeout_ms);
        let ghost got = match &r {
            Ok(v) => Some(v@),
            Err(_) => None::<Seq<u8>>,
        };
        self.reads = Ghost(self.reads@.push(ReadView { max_len, got }));
        r
    }

    /// Issue one command container: record it, then send its bytes in one
    /// bulk-OUT.
    fn send_req(&mut self, req: &Container) -> (r: Result<(), MtpError>)
        requires
            req.params@.len() <= 5,
        ensures
            final(self)@ == (SessionView {
                commands: old(self)@.commands.push(command_of(*req, req.transaction_id)),
                command_reads: old(self)@.command_reads.push(old(self)@.reads.len()),
                command_writes: old(self)@.command_writes.push(old(self)@.writes.len()),
                writes: final(self)@.writes,
                ..old(self)@
            }),
            final(self)@.writes.len() == old(self)@.writes.len() + 1,
            final(self)@.writes.take(old(self)@.writes.len() as int) == old(self)@.writes,
            final(self)@.writes.last().data == command_bytes(req.code, req.transaction_id, req.params@),
            r matches Err(e) ==> e@ is Transport,
            r is Ok <==> final(self)@.writes.last().accepted is Some,
    {
        let buf = command_packet(req);
        self.commands = Ghost(self.commands@.push(command_of(*req, req.transaction_id)));
        self.command_reads = Ghost(self.command_reads@.push(self.reads@.len()));
        self.command_writes = Ghost(self.command_writes@.push(self.writes@.len()));
        let t = self.timeout_ms;
        match self.write_out(buf.as_slice(), t) {
            Ok(_) => Ok(()),
            Err(e) => Err(MtpError::Transport(e)),
        }
    }

    /// Read one packet of at most the max packet size and split it (see
    /// [`parse_packet`]); also returns the packet's length.
    fn fetch_packet(&mut self) -> (r: Result<(Container, u32, usize, Vec<u8>), MtpError>)
        ensures
            final(self)@ == (SessionView {
                reads: old(self)@.reads.push(ReadView { max_len: old(self)@.packet_size, got: final(self)@.reads.last().got }),
                ..old(self)@
            }),
            r matches Ok((h, l, n, rest)) ==> n == rest@.len() + 12,
            r matches Ok((h, l, n, rest)) ==> (final(self)@.reads.last().got matches Some(g) && packet_spec(g) == Ok::<
                (ContainerKind, u16, u32, u32, Seq<u8>),
                MtpErrorView,
            >((h.kind, h.code, h.transaction_id, l, rest@))),
            r is Err ==> read_failed(final(self)@.reads.last()),
            r matches Err(e) ==> !(e@ is Rc) && !(e@ is Closed),
    {
        let mps = self.transport.max_packet_size();
        let t = self.timeout_ms;
        let data = match self.read_in(mps, t) {
            Ok(d) => d,
            Err(e) => return Err(MtpError::Transport(e)),
        };
        let n = data.len();
        match parse_packet(data.as_slice()) {
            Ok((h, l, rest)) => Ok((h, l, n, rest)),
            Err(e) => Err(e),
        }
    }

    /// Read the rest of a data-in phase in 16 KiB transfers until a short
    /// one, writing each to `w` and reporting the running count. If the last
    /// transfer filled whole packets, one more read follows: a zero-length
    /// packet, or on some hosts the response itself, which is returned.
    /// Returns the bytes `w` took, that trailing packet, and the outcome.
    fn bulk_read<S: DataSink, P: ObjectProgress>(&mut self, w: &mut S, progress: &mut P, handle: u32) -> (r: (
        u64,
        Vec<u8>,
        Result<(), MtpError>,
        Ghost<int>,
    ))
        ensures
            final(self)@ == (SessionView { reads: final(self)@.reads, ..old(self)@ }),
            final(self)@.reads.len() >= old(self)@.reads.len(),
            final(self)@.reads.take(old(self)@.reads.len() as int) == old(self)@.reads,
            drain_split(
                final(self)@.reads.skip(old(self)@.reads.len() as int),
                r.3@,
                old(self)@.packet_size,
                r.1@,
            ),
            final(w).received().len() >= old(w).received().len(),
            final(w).received().take(old(w).received().len() as int) == old(w).received(),
            r.0 == final(w).received().len() - old(w).received().len(),
            final(w).takes_all() == old(w).takes_all(),
            old(w).takes_all() ==> final(w).received() == old(w).received() + read_bytes(
                final(self)@.reads.skip(old(self)@.reads.len() as int).take(r.3@),
            ),
            final(progress).failures() >= old(progress).failures(),
            r.2 is Err ==> (final(self)@.reads.len() > old(self)@.reads.len() && final(self)@.reads.last().got is None)
                || final(progress).failures() > old(progress).failures(),
            r.2 matches Err(e) ==> (e@ is Transport || final(progress).failures() > old(progress).failures()),
    {
        let ghost start = self@.reads;
        let mut n: u64 = 0;
        let mut last_read: usize = 0;
        let mut result: Result<(), MtpError> = Ok(());
        let mut budget: u64 = 0x3_FFFF_FFFF_FFFF;
        proof {
            assert(self@.reads.skip(start.len() as int) =~= Seq::<ReadView>::empty());
        }
        loop
            invariant_except_break
                forall|i: int|
                    0 <= i < self@.reads.skip(start.len() as int).len() ==> ((#[trigger] self@.reads.skip(
                        start.len() as int,
                    )[i]).got matches Some(b) && b.len() == RW_BUF_SIZE),
                result is Ok,
                progress.failures() == old(progress).failures(),
            invariant
                self@ == (SessionView { reads: self@.reads, ..old(self)@ }),
                start == old(self)@.reads,
                progress.failures() >= old(progress).failures(),
                self@.reads.len() >= start.len(),
                self@.reads.take(start.len() as int) == start,
                forall|i: int|
                    0 <= i < self@.reads.skip(start.len() as int).len() ==> (#[trigger] self@.reads.skip(
                        start.len() as int,
                    )[i]).max_len == RW_BUF_SIZE,
                last_read as nat == last_read_len(self@.reads.skip(start.len() as int)),
                n <= (0x3_FFFF_FFFF_FFFF - budget) * 0x4000,
                budget <= 0x3_FFFF_FFFF_FFFF,
                w.received().len() >= old(w).received().len(),
                w.received().take(old(w).received().len() as int) == old(w).received(),
                n == w.received().len() - old(w).received().len(),
                w.takes_all() == old(w).takes_all(),
                old(w).takes_all() ==> w.received() == old(w).received() + read_bytes(
                    self@.reads.skip(start.len() as int),
                ),
            ensures
                w.received().len() >= old(w).received().len(),
                w.received().take(old(w).received().len() as int) == old(w).received(),
                n == w.received().len() - old(w).received().len(),
                w.takes_all() == old(w).takes_all(),
                old(w).takes_all() ==> w.received() == old(w).received() + read_bytes(
                    self@.reads.skip(start.len() as int),
                ),
                self@ == (SessionView { reads: self@.reads, ..old(self)@ }),
                self@.reads.len() >= start.len(),
                self@.reads.take(start.len() as int) == start,
                drain_reads(self@.reads.skip(start.len() as int)),
                last_read as nat == last_read_len(self@.reads.skip(start.len() as int)),
                progress.failures() >= old(progress).failures(),
                result is Err ==> (self@.reads.len() > start.len() && self@.reads.last().got is None)
                    || progress.failures() > old(progress).failures(),
                result matches Err(e) ==> (e@ is Transport || progress.failures() > old(progress).failures()),
            decreases budget,
        {
            if budget == 0 {
                break;
            }
            budget = budget - 1;
            let ghost before = self@.reads;
            let t = self.timeout_ms;
            let got = self.read_in(RW_BUF_SIZE, t);
            proof {
                let rs = self@.reads.skip(start.len() as int);
                assert(rs =~= before.skip(start.len() as int).push(self@.reads.last()));
                lemma_read_bytes_push(before.skip(start.len() as int), self@.reads.last());
                assert(rs.drop_last() =~= before.skip(start.len() as int));
                assert(self@.reads.take(start.len() as int) =~= start);
                assert forall|i: int| 0 <= i < rs.len() - 1 implies #[trigger] rs[i] == before.skip(
                    start.len() as int,
                )[i] by {}
            }
            let buf = match got {
                Ok(b) => b,
                Err(e) => {
                    result = Err(MtpError::Transport(e));
                    break;
                },
            };
            last_read = buf.len();
            if last_read > 0 {
                let ghost prev = w.received();
                match w.write(buf.as_slice()) {
                    Some(written) => {
                        proof {
                            assert(w.received().take(old(w).received().len() as int) =~= prev.take(
                                old(w).received().len() as int,
                            ));
                        }
                        n = n + written as u64;
                    },
                    None => break,
                }
            }
            match progress.report(n, handle) {
                Ok(()) => {},
                Err(e) => {
                    result = Err(e);
                    break;
                },
            }
            if last_read < RW_BUF_SIZE {
                break;
            }
        }
        let ghost loop_reads = self@.reads;
        let packet_size = self.transport.max_packet_size();
        if packet_size != 0 && last_read % packet_size == 0 {
            let t = self.timeout_ms;
            let got = self.read_in(RW_BUF_SIZE, t);
            let trailing = match got {
                Ok(b) => {
                    result = Ok(());
                    b
                },
                Err(e) => {
                    result = Err(MtpError::Transport(e));
                    Vec::new()
                },
            };
            proof {
                let rs = self@.reads.skip(start.len() as int);
                let k = loop_reads.len() - start.len();
                assert(rs.take(k) =~= loop_reads.skip(start.len() as int));
                assert(self@.reads.take(start.len() as int) =~= start);
                assert(trailing@ == match rs[k].got {
                    Some(b) => b,
                    None => Seq::<u8>::empty(),
                });
                assert(drain_split(rs, k, old(self)@.packet_size, trailing@));
            }
            let ghost k = loop_reads.len() - start.len();
            match progress.report(n, handle) {
                Err(e) => return (n, trailing, Err(e), Ghost(k)),
                Ok(()) => {},
            }
            return (n, trailing, result, Ghost(k));
        }
        let none: Vec<u8> = Vec::new();
        proof {
            let rs = self@.reads.skip(start.len() as int);
            let k = rs.len() as int;
            assert(rs.take(k) =~= rs);
            assert(drain_split(rs, k, old(self)@.packet_size, none@));
        }
        let ghost k = self@.reads.len() - start.len();
        (n, none, result, Ghost(k))
    }

    /// The data-in arm of a transaction: write the first packet's payload,
    /// decide whether more packets follow (running header-split detection),
    /// drain them, then obtain the response container. Returns the response
    /// header, its raw `Length`, the bytes after it, whether the data was
    /// unexpected, and the bytes `dest` took.
    fn read_data_phase<S: DataSink, P: ObjectProgress>(
        &mut self,
        dest: &mut S,
        unexpected: bool,
        first_n: usize,
        first_length: u32,
        first_rest: &[u8],
        progress: &mut P,
        handle: u32,
    ) -> (r: Result<(Container, u32, Vec<u8>, bool, u64, Ghost<(int, int)>), MtpError>)
        requires
            first_rest@.len() + 12 == first_n,
        ensures
            final(self)@ == (SessionView {
                separate_header: final(self)@.separate_header,
                reads: final(self)@.reads,
                ..old(self)@
            }),
            final(self)@.reads.len() >= old(self)@.reads.len(),
            final(self)@.reads.take(old(self)@.reads.len() as int) == old(self)@.reads,
            detection_step(old(self)@.separate_header, final(self)@.separate_header),
            r matches Ok((_, _, _, u, _, _)) ==> u == unexpected,
            final(dest).received().len() >= old(dest).received().len(),
            final(dest).received().take(old(dest).received().len() as int) == old(dest).received(),
            r matches Ok((_, _, _, _, total, _)) ==> total == saturated(
                final(dest).received().len() - old(dest).received().len(),
            ),
            r matches Ok((_, _, _, _, _, split)) ==> data_in_reads(
                final(self)@.reads.skip(old(self)@.reads.len() as int),
                more_follows(first_n, first_length, old(self)@.packet_size),
                old(self)@.packet_size,
                split@.0,
                split@.1,
            ),
            final(dest).takes_all() == old(dest).takes_all(),
            final(progress).failures() >= old(progress).failures(),
            r is Err ==> (final(self)@.reads.len() > old(self)@.reads.len() && read_failed(final(self)@.reads.last()))
                || final(progress).failures() > old(progress).failures(),
            r matches Err(e) ==> (!(e@ is Rc) && !(e@ is Closed)) || final(progress).failures() > old(progress).failures(),
            (final(progress).failures() == old(progress).failures() && all_got(
                final(self)@.reads.skip(old(self)@.reads.len() as int),
            )) ==> exists|j: int, k: int|
                #[trigger] data_in_reads(
                    final(self)@.reads.skip(old(self)@.reads.len() as int),
                    more_follows(first_n, first_length, old(self)@.packet_size),
                    old(self)@.packet_size,
                    j,
                    k,
                ),
            r matches Ok((h, l, rest, _, _, _)) ==> final(self)@.reads.len() > old(self)@.reads.len()
                && read_packet(final(self)@.reads.last()) == Some((h.kind, h.code, h.transaction_id, l, rest@)),
            (old(dest).takes_all() && r is Ok) ==> {
                &&& final(self)@.reads.len() > old(self)@.reads.len()
                &&& final(dest).received() == old(dest).received() + first_rest@ + read_bytes(
                    final(self)@.reads.skip(old(self)@.reads.len() as int).drop_last(),
                )
            },
    {
        let ghost start = self@.reads;
        let first_taken = write_all(dest, first_rest);
        proof {
            if old(dest).takes_all() {
                assert(first_rest@.take(first_taken as int) =~= first_rest@);
            }
        }
        let mps = self.transport.max_packet_size();
        if first_rest.len() + 12 == mps || (first_n as u32) < first_length {
            if first_n == 12 && first_rest.len() == 0 && (first_n as u32) < first_length {
                self.separate_header.detect_separate();
            } else {
                self.separate_header.detect_coalesced();
            }
            let ghost mid = dest.received();
            let (taken, final_packet, res, split) = self.bulk_read(dest, progress, handle);
            proof {
                assert(dest.received().take(old(dest).received().len() as int) =~= dest.received().take(
                    mid.len() as int,
                ).take(old(dest).received().len() as int));
            }
            let ghost drained = self@.reads;
            match res {
                Ok(()) => {},
                Err(e) => return Err(e),
            }
            let total = if first_taken <= u64::MAX - taken { first_taken + taken } else { u64::MAX };
            if final_packet.len() > 0 {
                proof {
                    let rs = self@.reads.skip(start.len() as int);
                    let k = split@;
                    lemma_drain_trailing(rs, k, old(self)@.packet_size, final_packet@);
                    let j = rs.len() as int;
                    assert(rs.take(j) =~= rs);
                    assert(drain_split(rs.take(j), k, old(self)@.packet_size, drain_trailing(rs.take(j), k, old(self)@.packet_size)));
                    assert(data_in_reads(rs, more_follows(first_n, first_length, old(self)@.packet_size), old(self)@.packet_size, j, k));
                }
                match Container::decode_header(final_packet.as_slice()) {
                    Ok((hdr, len)) => {
                        let rest = slice_from(final_packet.as_slice(), 12);
                        proof {
                            let rs = self@.reads.skip(start.len() as int);
                            let k = split@;
                            assert(rs.drop_last() =~= rs.take(k));
                            assert(rs[k] == self@.reads.last());
                            assert(final_packet@.len() >= 12);
                        }
                        let ghost at = (self@.reads.len() - start.len(), split@);
                        Ok((hdr, len, rest, unexpected, total, Ghost(at)))
                    },
                    Err(_) => Err(MtpError::Sync("malformed final response packet".to_owned())),
                }
            } else {
                let fetched = self.fetch_packet();
                proof {
                    let rs = self@.reads.skip(start.len() as int);
                    let d = drained.skip(start.len() as int);
                    let k = split@;
                    lemma_drain_trailing(d, k, old(self)@.packet_size, final_packet@);
                    let j = d.len() as int;
                    assert(rs.take(j) =~= d);
                    assert(self@.reads.take(start.len() as int) =~= start);
                    assert(drain_split(rs.take(j), k, old(self)@.packet_size, drain_trailing(rs.take(j), k, old(self)@.packet_size)));
                    assert(data_in_reads(rs, more_follows(first_n, first_length, old(self)@.packet_size), old(self)@.packet_size, j, k));
                    if fetched is Ok {
                        assert(rs.drop_last() =~= d);
                        if d.len() == k + 1 {
                            assert(d.take(k) =~= d.drop_last());
                            lemma_read_bytes_push(d.take(k), d[k]);
                            assert(d.take(k).push(d[k]) =~= d);
                        } else {
                            assert(d.take(k) =~= d);
                        }
                    }
                }
                let ghost at = (drained.len() - start.len(), split@);
                match fetched {
                    Ok((hdr, len, _n, rest)) => Ok((hdr, len, rest, unexpected, total, Ghost(at))),
                    Err(e) => Err(e),
                }
            }
        } else {
            let fetched = self.fetch_packet();
            proof {
                assert(self@.reads.take(start.len() as int) =~= start);
                assert(self@.reads.skip(start.len() as int).drop_last() =~= Seq::<ReadView>::empty());
                assert(dest.received() + Seq::<u8>::empty() =~= dest.received());
                assert(data_in_reads(self@.reads.skip(start.len() as int), more_follows(first_n, first_length, old(self)@.packet_size), old(self)@.packet_size, 0, 0));
            }
            match fetched {
                Ok((hdr, len, _n, rest)) => Ok((hdr, len, rest, unexpected, first_taken, Ghost((0int, 0int)))),
                Err(e) => Err(e),
            }
        }
    }

    /// Stream a data-out phase of `size` bytes from `src`: the data header
    /// (alone when the device splits headers, else with as much data as fills
    /// the first packet), then 16 KiB transfers, then a zero-length packet
    /// when the last transfer was packet-aligned. Returns the data bytes sent.
    fn bulk_write<R: DataSource, P: ObjectProgress>(
        &mut self,
        code: u16,
        tid: u32,
        src: &mut R,
        size: u64,
        progress: &mut P,
        handle: u32,
    ) -> (r: Result<u64, MtpError>)
        ensures
            final(self)@ == (SessionView { writes: final(self)@.writes, ..old(self)@ }),
            final(self)@.writes.len() >= old(self)@.writes.len(),
            final(self)@.writes.take(old(self)@.writes.len() as int) == old(self)@.writes,
            r matches Ok(n) ==> n <= size,
            r is Ok ==> data_out_writes(
                final(self)@.writes.skip(old(self)@.writes.len() as int),
                code,
                tid,
                size,
                old(self)@.separate_header is Separate,
                old(self)@.packet_size,
            ),
            r is Ok ==> final(src).yielded() == old(src).yielded() + write_bytes(
                final(self)@.writes.skip(old(self)@.writes.len() as int),
            ).skip(12),
            (r is Ok && source_full(*old(src), size)) ==> data_out_sizes(
                final(self)@.writes.skip(old(self)@.writes.len() as int),
                size,
                old(self)@.separate_header is Separate,
                old(self)@.packet_size,
            ),
            (final(progress).failures() == old(progress).failures() && all_accepted(
                final(self)@.writes.skip(old(self)@.writes.len() as int),
            )) ==> r is Ok,
            (source_full(*old(src), size) && final(progress).failures() == old(progress).failures() && all_taken(
                final(self)@.writes.skip(old(self)@.writes.len() as int),
            )) ==> r == Ok::<u64, MtpError>(size),
            final(src).content() == old(src).content(),
            old(src).yielded().is_prefix_of(old(src).content()) ==> final(src).yielded().is_prefix_of(final(src).content()),
            r is Ok ==> final(progress).failures() == old(progress).failures(),
            final(progress).failures() >= old(progress).failures(),
            r matches Err(e) ==> (e@ is Transport || final(progress).failures() > old(progress).failures()),
            r is Err ==> (final(self)@.writes.len() > old(self)@.writes.len() && final(self)@.writes.last().accepted is None)
                || final(progress).failures() > old(progress).failures(),
    {
        let ghost start = self@.writes;
        let total_size = size;
        let mut remaining = size;
        let packet_size = self.transport.max_packet_size();
        let mut n: u64 = 0;
        let hdr = Container { kind: ContainerKind::Data, code, transaction_id: tid, params: Vec::new() };
        let header = hdr.encode_header(size);
        let separate = self.separate_header.is_separate();
        let packet_len: usize = if separate {
            12
        } else {
            packet_size
        };
        let mut buf: Vec<u8> = Vec::new();
        let mut i: usize = 0;
        while i < 12
            invariant
                0 <= i <= 12,
                buf@ == header@.take(i as int),
            decreases 12 - i,
        {
            buf.push(header[i]);
            i = i + 1;
            proof {
                assert(buf@ =~= header@.take(i as int));
            }
        }
        let room: u64 = if packet_len > 12 { (packet_len - 12) as u64 } else { 0 };
        let cp_size = if room < remaining { room } else { remaining };
        proof {
            assert(header@.take(12) =~= header@);
        }
        let ghost full0 = source_full(*src, size);
        copy_n(src, cp_size, &mut buf);
        let ghost first = buf@;
        let t = self.timeout_ms;
        match self.write_out(buf.as_slice(), t) {
            Ok(_) => {},
            Err(e) => {
                proof {
                    assert(self@.writes.skip(start.len() as int)[0] == self@.writes.last());
                }
                return Err(MtpError::Transport(e));
            },
        }
        proof {
            let ws = self@.writes.skip(start.len() as int);
            assert(ws =~= seq![self@.writes.last()]);
            lemma_write_bytes_push(Seq::<WriteView>::empty(), self@.writes.last());
            assert(seq![self@.writes.last()] =~= Seq::<WriteView>::empty().push(self@.writes.last()));
            assert(write_bytes(ws) =~= first);
        }
        remaining = remaining - cp_size;
        n = n + cp_size;
        match progress.report(total_size - remaining, handle) {
            Ok(()) => {},
            Err(e) => return Err(e),
        }
        let mut last_transfer: usize = 0;
        while remaining > 0
            invariant
                self@ == (SessionView { writes: self@.writes, ..old(self)@ }),
                self@.writes.len() >= start.len() + 1,
                self@.writes.take(start.len() as int) == start,
                start == old(self)@.writes,
                self@.writes[start.len() as int].data == first,
                first.len() >= 12,
                first.take(12) == header@,
                first.len() - 12 <= size,
                separate ==> first.len() == 12,
                !separate ==> first.len() <= (if packet_size > 12 { packet_size as int } else { 12 }),
                forall|j: int|
                    start.len() + 1 <= j < self@.writes.len() ==> (#[trigger] self@.writes[j]).data.len() > 0
                        && self@.writes[j].data.len() <= RW_BUF_SIZE && self@.writes[j].accepted is Some,
                last_transfer as nat == last_accepted(self@.writes.skip((start.len() + 1) as int)),
                remaining <= total_size,
                n <= total_size - remaining,
                write_bytes(self@.writes.skip(start.len() as int)).len() >= 12,
                src.yielded() == old(src).yielded() + write_bytes(self@.writes.skip(start.len() as int)).skip(12),
                src.content() == old(src).content(),
                old(src).yielded().is_prefix_of(old(src).content()) ==> src.yielded().is_prefix_of(src.content()),
                progress.failures() == old(progress).failures(),
                full0 == source_full(*old(src), size),
                src.fills() == old(src).fills(),
                full0 ==> first.len() == 12 + cp_size,
                cp_size == (if size < room { size } else { room }),
                room == (if !separate && packet_size > 12 { packet_size - 12 } else { 0 }),
                full0 ==> write_bytes(self@.writes.skip(start.len() as int)).len() == 12 + total_size - remaining,
                full0 ==> forall|j: int|
                    start.len() + 1 <= j < self@.writes.len() ==> (#[trigger] self@.writes[j]).data.len() == rw_chunk(
                        12 + total_size - write_bytes(self@.writes.subrange(start.len() as int, j)).len(),
                    ),
                total_size == size,
                all_taken(self@.writes.skip(start.len() + 1int)) ==> n == total_size - remaining,
            ensures
                full0 ==> (remaining == 0 || (self@.writes.len() > start.len() + 1 && last_transfer == 0)),
            decreases remaining,
        {
            let want: usize = if remaining < RW_BUF_SIZE as u64 { remaining as usize } else { RW_BUF_SIZE };
            let chunk = match src.read(want) {
                Some(c) => c,
                None => break,
            };
            let m = chunk.len();
            if m == 0 {
                break;
            }
            remaining = remaining - m as u64;
            let ghost before_w = self@.writes;
            let t = self.timeout_ms;
            last_transfer = match self.write_out(chunk.as_slice(), t) {
                Ok(t) => t,
                Err(e) => {
                    proof {
                        assert(self@.writes.skip(start.len() as int)[self@.writes.len() - start.len() - 1]
                            == self@.writes.last());
                    }
                    return Err(MtpError::Transport(e));
                },
            };
            proof {
                let w = self@.writes;
                assert(w.take(start.len() as int) =~= start);
                assert(w.skip((start.len() + 1) as int).last() == w.last());
                let prev = before_w.skip(start.len() as int);
                assert(w.drop_last() =~= before_w);
                assert(w.skip(start.len() as int) =~= prev.push(w.last()));
                lemma_write_bytes_push(prev, w.last());
                assert(write_bytes(prev) + chunk@ == write_bytes(w.skip(start.len() as int)));
                assert(write_bytes(w.skip(start.len() as int)).skip(12) =~= write_bytes(prev).skip(12) + chunk@);
                if all_taken(w.skip(start.len() + 1int)) {
                    assert forall|x: int| 0 <= x < before_w.skip(start.len() + 1int).len() implies (
                    #[trigger] before_w.skip(start.len() + 1int)[x]).accepted == Some(
                        before_w.skip(start.len() + 1int)[x].data.len() as usize,
                    ) by {
                        assert(before_w.skip(start.len() + 1int)[x] == w.skip(start.len() + 1int)[x]);
                    }
                    assert(w.skip(start.len() + 1int)[w.len() - start.len() - 2] == w.last());
                }
                if full0 {
                    assert(w.subrange(start.len() as int, w.len() - 1) =~= prev);
                    assert forall|j: int| start.len() + 1 <= j < w.len() implies (#[trigger] w[j]).data.len()
                        == rw_chunk(12 + total_size - write_bytes(w.subrange(start.len() as int, j)).len()) by {
                        if j < w.len() - 1 {
                            assert(w.subrange(start.len() as int, j) =~= before_w.subrange(start.len() as int, j));
                            assert(w[j] == before_w[j]);
                        }
                    }
                }
            }
            n = n + last_transfer as u64;
            if last_transfer == 0 {
                break;
            }
            match progress.report(total_size - remaining, handle) {
                Ok(()) => {},
                Err(e) => return Err(e),
            }
        }
        let ghost before_zlp = self@.writes;
        if packet_size != 0 && last_transfer % packet_size == 0 {
            let empty: Vec<u8> = Vec::new();
            let _ = self.write_out(empty.as_slice(), ZLP_TIMEOUT_MS);
            proof {
                assert(self@.writes.take(before_zlp.len() as int) =~= before_zlp);
                let prev = before_zlp.skip(start.len() as int);
                assert(self@.writes.skip(start.len() as int) =~= prev.push(self@.writes.last()));
                lemma_write_bytes_push(prev, self@.writes.last());
                assert(write_bytes(self@.writes.skip(start.len() as int)) =~= write_bytes(prev));
            }
        }
        proof {
            lemma_data_out_writes(start, before_zlp, self@.writes, code, tid, size, separate, packet_size, first,
                header@, last_transfer);
            if full0 {
                assert(before_zlp.skip(start.len() as int)[0] == before_zlp[start.len() as int]);
                lemma_data_out_sizes(start, before_zlp, self@.writes, size, separate, packet_size, last_transfer);
            }
            if all_taken(self@.writes.skip(start.len() as int)) {
                assert forall|x: int| 0 <= x < before_zlp.skip(start.len() + 1int).len() implies (
                #[trigger] before_zlp.skip(start.len() + 1int)[x]).accepted == Some(
                    before_zlp.skip(start.len() + 1int)[x].data.len() as usize,
                ) by {
                    assert(before_zlp.skip(start.len() + 1int)[x] == self@.writes.skip(start.len() as int)[x + 1]);
                }
                if before_zlp.len() > start.len() + 1 {
                    assert(before_zlp.skip(start.len() + 1int)[before_zlp.len() - start.len() - 2] == before_zlp.last());
                }
            }
        }
        Ok(n)
    }

    /// One transaction with no guard: stamp the transaction ID when a session
    /// is open, send the command, run the data-out phase if there is a
    /// source, read the first packet, drain a data-in phase if one comes, and
    /// check the response. Returns the response and the bytes `dest` took.
    #[verifier::spinoff_prover]
    #[verifier::rlimit(80)]
    pub(crate) fn run_transaction_raw<S: DataSink, R: DataSource, P: ObjectProgress>(
        &mut self,
        req: Container,
        dest: &mut S,
        has_dest: bool,
        src: &mut R,
        has_src: bool,
        write_size: u64,
        progress: &mut P,
        handle: u32,
    ) -> (r: Result<(Container, u64), MtpError>)
        requires
            req.params@.len() <= 5,
        ensures
            final(self)@.closed == old(self)@.closed,
            final(self)@.session == advanced(old(self)@.session),
            final(self)@.timeout_ms == old(self)@.timeout_ms,
            final(self)@.usb_info == old(self)@.usb_info,
            detection_step(old(self)@.separate_header, final(self)@.separate_header),
            final(self)@.commands == old(self)@.commands.push(
                command_of(req, stamped_tid(old(self)@.session, req.transaction_id)),
            ),
            final(self)@.packet_size == old(self)@.packet_size,
            final(dest).received().len() >= old(dest).received().len(),
            final(dest).received().take(old(dest).received().len() as int) == old(dest).received(),
            r matches Ok((_, taken)) ==> taken == saturated(
                final(dest).received().len() - old(dest).received().len(),
            ),
            transaction_writes(
                old(self)@.writes,
                final(self)@.writes,
                req,
                stamped_tid(old(self)@.session, req.transaction_id),
                has_src,
                r is Ok,
                write_size,
                old(self)@.separate_header is Separate,
                old(self)@.packet_size,
            ),
            r matches Ok((rep, _)) ==> rep.kind == ContainerKind::Response && rep.code == 0x2001 && (
            old(self)@.session is Some ==> rep.transaction_id == stamped_tid(
                old(self)@.session,
                req.transaction_id,
            )),
            final(dest).takes_all() == old(dest).takes_all(),
            (old(dest).takes_all() && has_dest && r is Ok) ==> final(dest).received() == old(dest).received()
                + data_in_payload(final(self)@.reads.skip(old(self)@.reads.len() as int)),
            (has_src && r is Ok) ==> final(src).yielded() == old(src).yielded() + write_bytes(
                final(self)@.writes.skip((old(self)@.writes.len() + 1) as int),
            ).skip(12),
            (has_src && r is Ok && source_full(*old(src), write_size)) ==> data_out_sizes(
                final(self)@.writes.skip((old(self)@.writes.len() + 1) as int),
                write_size,
                old(self)@.separate_header is Separate,
                old(self)@.packet_size,
            ),
            final(src).content() == old(src).content(),
            old(src).yielded().is_prefix_of(old(src).content()) ==> final(src).yielded().is_prefix_of(final(src).content()),
            final(progress).failures() >= old(progress).failures(),
            r matches Ok((rep, _)) ==> answered_ok(
                old(self)@,
                final(self)@,
                stamped_tid(old(self)@.session, req.transaction_id),
            ) && ok_reply(final(self)@.reads.last()) == Some((rep.transaction_id, rep.params@)),
            (r matches Err(e) && !poisons_spec(e@)) ==> !answered_ok(
                old(self)@,
                final(self)@,
                stamped_tid(old(self)@.session, req.transaction_id),
            ) || final(progress).failures() > old(progress).failures(),
            final(self)@.reads.len() >= old(self)@.reads.len(),
            final(self)@.reads.take(old(self)@.reads.len() as int) == old(self)@.reads,
            final(self)@.command_reads == old(self)@.command_reads.push(old(self)@.reads.len()),
            final(self)@.command_writes == old(self)@.command_writes.push(old(self)@.writes.len()),
            final(self)@.resets == old(self)@.resets,
            final(self)@.reset_commands == old(self)@.reset_commands,
            final(self)@.transport_closed == old(self)@.transport_closed,
            (final(progress).failures() == old(progress).failures() && all_accepted(
                final(self)@.writes.skip(old(self)@.writes.len() as int),
            )) ==> tx_read_pattern(final(self)@.reads.skip(old(self)@.reads.len() as int), old(self)@.packet_size),
            r is Ok ==> !unexpected_data(final(self)@.reads.skip(old(self)@.reads.len() as int), has_dest),
            final(progress).failures() == old(progress).failures() ==> {
                &&& (r is Ok <==> (answered_ok(
                    old(self)@,
                    final(self)@,
                    stamped_tid(old(self)@.session, req.transaction_id),
                ) && !unexpected_data(final(self)@.reads.skip(old(self)@.reads.len() as int), has_dest)))
                &&& rc_of_err(err_of(r)) == rc_answer(
                    final(self)@.reads.skip(old(self)@.reads.len() as int),
                    has_dest,
                )
                &&& !(r matches Err(e) && e@ is Closed)
            },
    {
        let ghost req0 = req;
        let mut req = req;
        match self.session {
            Some(sess) => {
                req.transaction_id = sess.tid;
                let next = if sess.tid == u32::MAX { 0 } else { sess.tid + 1 };
                self.session = Some(SessionData { tid: next, sid: sess.sid });
            },
            None => {},
        }
        let ghost before = self@.writes;
        let send = self.send_req(&req);
        let ghost w1 = self@.writes;
        proof {
            assert(before == old(self)@.writes);
            assert(w1[before.len() as int] == w1.last());
            assert(req.params@ == req0.params@ && req.code == req0.code);
            assert(req.transaction_id == stamped_tid(old(self)@.session, req0.transaction_id));
            assert(w1.skip(before.len() as int)[0] == w1.last());
        }
        match send {
            Ok(()) => {},
            Err(e) => return Err(e),
        }
        if has_src {
            let written = self.bulk_write(req.code, req.transaction_id, src, write_size, progress, handle);
            proof {
                let w2 = self@.writes;
                assert(w2.take(before.len() as int) =~= w2.take(w1.len() as int).take(before.len() as int));
                assert(w2[before.len() as int] == w2.take(w1.len() as int)[before.len() as int]);
                assert(w2.skip(w1.len() as int) == w2.skip((before.len() + 1) as int));
                if w2.len() > before.len() {
                    assert(w2.skip(before.len() as int)[w2.len() - before.len() - 1] == w2.last());
                }
            }
            match written {
                Ok(_) => {},
                Err(e) => return Err(e),
            }
        }
        let ghost before_fetch = self@.reads;
        let (resp_header, resp_length, first_n, first_rest) = match self.fetch_packet() {
            Ok(x) => x,
            Err(e) => return Err(e),
        };
        let ghost after_fetch = self@.reads;
        proof {
            assert(before_fetch == old(self)@.reads);
            assert(self@.reads.skip(old(self)@.reads.len() as int)[0] == self@.reads.last());
        }
        let phase = match resp_header.kind {
            ContainerKind::Data => {
                if has_dest {
                    self.read_data_phase(dest, false, first_n, resp_length, first_rest.as_slice(), progress, handle)
                } else {
                    let mut null = NullSink::new();
                    self.read_data_phase(&mut null, true, first_n, resp_length, first_rest.as_slice(), progress, handle)
                }
            },
            _ => Ok((resp_header, resp_length, first_rest, false, 0, Ghost((0int, 0int)))),
        };
        proof {
            if phase is Ok && has_dest && old(dest).takes_all() {
                let t = self@.reads.skip(before_fetch.len() as int);
                let g = after_fetch.last().got->0;
                assert(t[0] == after_fetch.last());
                if resp_header.kind == ContainerKind::Data {
                    assert(t.skip(1) =~= self@.reads.skip(after_fetch.len() as int));
                    assert(data_in_payload(t) == first_rest@ + read_bytes(t.skip(1).drop_last()));
                } else {
                    assert(dest.received() =~= old(dest).received() + data_in_payload(t));
                }
            }
        }
        proof {
            assert(self@.reads.take(after_fetch.len() as int) =~= after_fetch) by {
                assert(self@.reads.take(after_fetch.len() as int) == after_fetch);
            }
            assert(self@.reads.skip(old(self)@.reads.len() as int)[0] == after_fetch.last());
            assert(self@.reads.take(old(self)@.reads.len() as int) =~= old(self)@.reads);
            let rs = self@.reads.skip(old(self)@.reads.len() as int);
            assert(read_packet(rs[0]) == Some(
                (resp_header.kind, resp_header.code, resp_header.transaction_id, resp_length, first_rest@),
            ));
            if resp_header.kind == ContainerKind::Data {
                assert(rs.skip(1) =~= self@.reads.skip(after_fetch.len() as int));
                assert((first_rest@.len() + 12) as usize == first_n);
                if all_got(rs) {
                    assert forall|i: int| 0 <= i < rs.skip(1).len() implies (#[trigger] rs.skip(1)[i]).got is Some by {
                        assert(rs.skip(1)[i] == rs[i + 1]);
                    }
                }
            } else {
                assert(rs.len() == 1);
            }
        }
        let (final_header, final_length, final_rest, unexpected, taken, _split) = match phase {
            Ok(x) => x,
            Err(e) => return Err(e),
        };
        proof {
            assert(self@.reads.len() > old(self)@.reads.len());
            assert(read_packet(self@.reads.last()) == Some(
                (final_header.kind, final_header.code, final_header.transaction_id, final_length, final_rest@),
            ));
        }
        let decoded = decode_rep(&final_header, final_length, final_rest.as_slice());
        if unexpected {
            let mut msg = "unexpected data for code ".to_owned();
            let name = rc_or_hex(req.code);
            msg.append(name.as_str());
            return Err(MtpError::Sync(msg));
        }
        let rep = match decoded {
            Ok(rep) => rep,
            Err(e) => return Err(e),
        };
        if self.session.is_some() && rep.transaction_id != req.transaction_id {
            let mut msg = "transaction ID mismatch got ".to_owned();
            push_hex_lower(&mut msg, rep.transaction_id as u64);
            msg.append(" want ");
            push_hex_lower(&mut msg, req.transaction_id as u64);
            return Err(MtpError::Sync(msg));
        }
        Ok((rep, taken))
    }

    /// The guarded transaction every operation runs: refuses at once on a
    /// closed session, and closes the session after a fatal error.
    pub(crate) fn run_transaction<S: DataSink, R: DataSource, P: ObjectProgress>(
        &mut self,
        req: Container,
        dest: &mut S,
        has_dest: bool,
        src: &mut R,
        has_src: bool,
        write_size: u64,
        progress: &mut P,
        handle: u32,
    ) -> (r: Result<(Container, u64), MtpError>)
        requires
            req.params@.len() <= 5,
        ensures
            old(self)@.closed ==> (r matches Err(e) && e@ is Closed && final(self)@ == old(self)@),
            final(dest).received().len() >= old(dest).received().len(),
            final(dest).received().take(old(dest).received().len() as int) == old(dest).received(),
            r matches Ok((_, taken)) ==> taken == saturated(
                final(dest).received().len() - old(dest).received().len(),
            ),
            !old(self)@.closed ==> {
                &&& final(self)@.commands.len() > old(self)@.commands.len()
                &&& final(self)@.commands[old(self)@.commands.len() as int] == command_of(
                    req,
                    stamped_tid(old(self)@.session, req.transaction_id),
                )
                &&& final(self)@.timeout_ms == old(self)@.timeout_ms
                &&& final(self)@.usb_info == old(self)@.usb_info
                &&& final(self)@.packet_size == old(self)@.packet_size
                &&& final(self)@.writes.len() > old(self)@.writes.len()
                &&& final(self)@.writes.take(old(self)@.writes.len() as int) == old(self)@.writes
                &&& final(self)@.writes[old(self)@.writes.len() as int].data == command_bytes(
                    req.code,
                    stamped_tid(old(self)@.session, req.transaction_id),
                    req.params@,
                )
                &&& (r matches Err(e) && poisons_spec(e@)) ==> final(self)@.closed
                &&& !(r matches Err(e) && poisons_spec(e@)) ==> {
                    &&& !final(self)@.closed
                    &&& final(self)@.session == advanced(old(self)@.session)
                    &&& detection_step(old(self)@.separate_header, final(self)@.separate_header)
                    &&& final(self)@.commands == old(self)@.commands.push(
                        command_of(req, stamped_tid(old(self)@.session, req.transaction_id)),
                    )
                    &&& transaction_writes(
                        old(self)@.writes,
                        final(self)@.writes,
                        req,
                        stamped_tid(old(self)@.session, req.transaction_id),
                        has_src,
                        r is Ok,
                        write_size,
                        old(self)@.separate_header is Separate,
                        old(self)@.packet_size,
                    )
                }
            },
            r matches Ok((rep, _)) ==> rep.kind == ContainerKind::Response && rep.code == 0x2001 && (
            old(self)@.session is Some ==> rep.transaction_id == stamped_tid(
                old(self)@.session,
                req.transaction_id,
            )),
            final(dest).takes_all() == old(dest).takes_all(),
            (old(dest).takes_all() && has_dest && r is Ok) ==> final(dest).received() == old(dest).received()
                + data_in_payload(final(self)@.reads.skip(old(self)@.reads.len() as int)),
            (has_src && r is Ok) ==> final(src).yielded() == old(src).yielded() + write_bytes(
                final(self)@.writes.skip((old(self)@.writes.len() + 1) as int),
            ).skip(12),
            (has_src && r is Ok && source_full(*old(src), write_size)) ==> data_out_sizes(
                final(self)@.writes.skip((old(self)@.writes.len() + 1) as int),
                write_size,
                old(self)@.separate_header is Separate,
                old(self)@.packet_size,
            ),
            final(src).content() == old(src).content(),
            old(src).yielded().is_prefix_of(old(src).content()) ==> final(src).yielded().is_prefix_of(final(src).content()),
            final(progress).failures() >= old(progress).failures(),
            r matches Ok((rep, _)) ==> answered_ok(
                old(self)@,
                final(self)@,
                stamped_tid(old(self)@.session, req.transaction_id),
            ) && ok_reply(final(self)@.reads.last()) == Some((rep.transaction_id, rep.params@)),
            (r matches Err(e) && !poisons_spec(e@)) ==> !answered_ok(
                old(self)@,
                final(self)@,
                stamped_tid(old(self)@.session, req.transaction_id),
            ) || final(progress).failures() > old(progress).failures(),
            final(self)@.reads.len() >= old(self)@.reads.len(),
            final(self)@.reads.take(old(self)@.reads.len() as int) == old(self)@.reads,
            (!old(self)@.closed && r is Ok) ==> tx_ok(
                final(self)@,
                old(self)@.command_reads.len() as int,
                old(self)@.session,
                stamped_tid(old(self)@.session, req.transaction_id),
                has_dest,
            ),
            (!old(self)@.closed && final(progress).failures() == old(progress).failures() && all_accepted(
                tx_writes(final(self)@, old(self)@.command_writes.len() as int),
            )) ==> tx_read_pattern(
                tx_reads(final(self)@, old(self)@.command_reads.len() as int),
                old(self)@.packet_size,
            ),
            (!old(self)@.closed && (r matches Err(e) && poisons_spec(e@))) ==> final(self)@.transport_closed,
            (!old(self)@.closed && (r matches Err(e) && poisons_spec(e@)) && old(self)@.session is Some) ==> {
                let next = advanced(old(self)@.session);
                let t2 = stamped_tid(next, 0);
                let answered = tx_ok(final(self)@, old(self)@.command_reads.len() + 1int, next, t2, false);
                &&& final(self)@.commands.len() == old(self)@.commands.len() + 2
                &&& final(self)@.commands[old(self)@.commands.len() + 1int] == CommandView {
                    code: OpCode::CLOSE_SESSION,
                    tid: t2,
                    params: seq![],
                }
                &&& tx_writes(final(self)@, old(self)@.command_writes.len() + 1int).len() > 0
                &&& tx_writes(final(self)@, old(self)@.command_writes.len() + 1int)[0].data == command_bytes(
                    OpCode::CLOSE_SESSION,
                    t2,
                    seq![],
                )
                &&& answered ==> final(self)@.resets == old(self)@.resets
                &&& !answered ==> final(self)@.resets.len() == old(self)@.resets.len() + 1
                    && final(self)@.resets.drop_last() == old(self)@.resets
            },
            (!old(self)@.closed && final(progress).failures() == old(progress).failures()) ==> (r is Ok <==> tx_ok(
                final(self)@,
                old(self)@.command_reads.len() as int,
                old(self)@.session,
                stamped_tid(old(self)@.session, req.transaction_id),
                has_dest,
            )),
            (!old(self)@.closed && old(self)@.session is None) ==> {
                &&& final(self)@.commands == old(self)@.commands.push(command_of(req, req.transaction_id))
                &&& final(self)@.command_reads == old(self)@.command_reads.push(old(self)@.reads.len())
                &&& final(self)@.resets == old(self)@.resets
                &&& final(self)@.reset_commands == old(self)@.reset_commands
            },
    {
        if self.closed {
            return Err(MtpError::Closed);
        }
        let res = self.run_transaction_raw(req, dest, has_dest, src, has_src, write_size, progress, handle);
        let ghost i = old(self)@.command_reads.len() as int;
        let ghost iw = old(self)@.command_writes.len() as int;
        proof {
            assert(tx_reads(self@, i) =~= self@.reads.skip(old(self)@.reads.len() as int));
            assert(tx_writes(self@, iw) =~= self@.writes.skip(old(self)@.writes.len() as int));
        }
        match res {
            Ok(rep) => Ok(rep),
            Err(e) => {
                if e.poisons() {
                    let ghost before = self@.commands;
                    let ghost wbefore = self@.writes;
                    let ghost rbefore = self@.reads;
                    let ghost mid = self@;
                    self.shutdown();
                    proof {
                        if mid.session is Some {
                            assert(self@.reads.subrange(old(self)@.reads.len() as int, rbefore.len() as int)
                                =~= rbefore.skip(old(self)@.reads.len() as int));
                            assert(tx_reads(self@, i) =~= tx_reads(mid, i));
                            assert(self@.writes.subrange(old(self)@.writes.len() as int, wbefore.len() as int)
                                =~= wbefore.skip(old(self)@.writes.len() as int));
                            assert(tx_writes(self@, iw) =~= tx_writes(mid, iw));
                            assert(tx_writes(self@, iw + 1)[0] == self@.writes[wbefore.len() as int]);
                        }
                        assert(self@.reads.take(old(self)@.reads.len() as int) =~= self@.reads.take(
                            rbefore.len() as int,
                        ).take(old(self)@.reads.len() as int));
                        assert(self@.commands.take(before.len() as int) == before);
                        assert(self@.commands[before.len() - 1] == before[before.len() - 1]);
                        assert(self@.writes.take(old(self)@.writes.len() as int) =~= self@.writes.take(
                            wbefore.len() as int,
                        ).take(old(self)@.writes.len() as int));
                        assert(self@.writes[old(self)@.writes.len() as int] == wbefore[old(self)@.writes.len() as int]);
                    }
                }
                Err(e)
            },
        }
    }

    /// Tear the connection down: close the session if one is open (a failed
    /// close resets the device), close the transport, and mark the session
    /// closed. A no-op once closed.
    pub fn shutdown(&mut self)
        ensures
            final(self)@.closed,
            final(self)@.transport_closed || old(self)@.closed,
            old(self)@.closed ==> final(self)@ == old(self)@,
            (!old(self)@.closed && old(self)@.session is None) ==> final(self)@ == (SessionView {
                closed: true,
                transport_closed: true,
                ..old(self)@
            }),
            (!old(self)@.closed && old(self)@.session is Some) ==> {
                let tid = stamped_tid(old(self)@.session, 0);
                let answered = tx_ok(final(self)@, old(self)@.command_reads.len() as int, old(self)@.session, tid, false);
                &&& final(self)@.commands == old(self)@.commands.push(
                    CommandView { code: OpCode::CLOSE_SESSION, tid, params: seq![] },
                )
                &&& final(self)@.command_reads == old(self)@.command_reads.push(old(self)@.reads.len())
                &&& final(self)@.command_writes == old(self)@.command_writes.push(old(self)@.writes.len())
                &&& final(self)@.writes.len() > old(self)@.writes.len()
                &&& final(self)@.writes[old(self)@.writes.len() as int].data == command_bytes(
                    OpCode::CLOSE_SESSION,
                    tid,
                    seq![],
                )
                &&& final(self)@.reads.len() >= old(self)@.reads.len()
                &&& final(self)@.reads.take(old(self)@.reads.len() as int) == old(self)@.reads
                &&& answered ==> final(self)@.resets == old(self)@.resets && final(self)@.reset_commands
                    == old(self)@.reset_commands
                &&& !answered ==> final(self)@.resets.len() == old(self)@.resets.len() + 1
                    && final(self)@.resets.drop_last() == old(self)@.resets && final(self)@.reset_commands
                    == old(self)@.reset_commands.push(old(self)@.commands.len() + 1)
                &&& final(self)@.transport_closed
            },
            final(self)@.timeout_ms == old(self)@.timeout_ms,
            final(self)@.usb_info == old(self)@.usb_info,
            final(self)@.commands.len() >= old(self)@.commands.len(),
            final(self)@.commands.take(old(self)@.commands.len() as int) == old(self)@.commands,
            final(self)@.writes.len() >= old(self)@.writes.len(),
            final(self)@.writes.take(old(self)@.writes.len() as int) == old(self)@.writes,
            final(self)@.packet_size == old(self)@.packet_size,
    {
        if self.closed {
            return;
        }
        if self.session.is_some() {
            let req = close_session_req();
            let mut sink = NullSink::new();
            let mut src = SliceSource::new(Vec::new());
            let mut prog = super::transport::NoProgress;
            let ghost before = self@.commands;
            let ghost wbefore = self@.writes;
            let ghost rbefore = self@.resets;
            let ghost i = self@.command_reads.len() as int;
            let ghost r0 = self@.reads.len() as int;
            let res = self.run_transaction_raw(req, &mut sink, false, &mut src, false, 0, &mut prog, 0);
            proof {
                assert(tx_reads(self@, i) =~= self@.reads.skip(r0));
            }
            if res.is_err() {
                let _ = self.reset_in();
                proof {
                    assert(self@.resets.drop_last() =~= rbefore);
                }
            }
            proof {
                assert(self@.commands.take(before.len() as int) =~= before);
                assert(self@.writes.take(wbefore.len() as int) =~= wbefore);
                assert(req.params@ =~= seq![]);
            }
        } else {
            proof {
                assert(self@.commands.take(self@.commands.len() as int) =~= self@.commands);
                assert(self@.writes.take(self@.writes.len() as int) =~= self@.writes);
            }
        }
        self.transport.close();
        self.transport_closed = Ghost(true);
        self.closed = true;
    }

    /// `OpenSession` with a fresh odd 31-bit session ID, through the unguarded
    /// path so a failure leaves the transport alive for the recovery ladder.
    /// The first transaction ID afterwards is 1.
    pub(crate) fn open_session(&mut self) -> (r: Result<(), MtpError>)
        ensures
            old(self)@.session is Some ==> (r matches Err(e) && e@ == MtpErrorView::Sync(
                "session already open"@,
            ) && final(self)@ == old(self)@),
            old(self)@.session is None ==> {
                &&& final(self)@.closed == old(self)@.closed
                &&& final(self)@.timeout_ms == old(self)@.timeout_ms
                &&& final(self)@.usb_info == old(self)@.usb_info
                &&& final(self)@.commands.len() == old(self)@.commands.len() + 1
                &&& final(self)@.commands.last().code == OpCode::OPEN_SESSION
                &&& final(self)@.commands.last().tid == 0
                &&& final(self)@.commands.last().params.len() == 1
                &&& r is Ok ==> final(self)@.session == Some(
                    SessionData { tid: 1, sid: final(self)@.commands.last().params[0] },
                )
                &&& r is Err ==> final(self)@.session is None
                &&& final(self)@.commands.last().params[0] % 2 == 1
                &&& final(self)@.commands.last().params[0] < 0x8000_0000
                &&& final(self)@.commands.drop_last() == old(self)@.commands
                &&& final(self)@.packet_size == old(self)@.packet_size
                &&& final(self)@.command_reads == old(self)@.command_reads.push(old(self)@.reads.len())
                &&& final(self)@.resets == old(self)@.resets
                &&& final(self)@.reset_commands == old(self)@.reset_commands
                &&& final(self)@.reads.len() >= old(self)@.reads.len()
                &&& final(self)@.reads.take(old(self)@.reads.len() as int) == old(self)@.reads
                &&& (r is Ok <==> (answered_ok(old(self)@, final(self)@, 0) && !unexpected_data(
                    final(self)@.reads.skip(old(self)@.reads.len() as int),
                    false,
                )))
                &&& rc_of_err(err_of(r)) == rc_answer(final(self)@.reads.skip(old(self)@.reads.len() as int), false)
                &&& !(r matches Err(e) && e@ is Closed)
            },
    {
        if self.session.is_some() {
            return Err(MtpError::Sync("session already open".to_owned()));
        }
        let x = random_u32();
        let sid: u32 = (x & 0x7FFF_FFFF) | 1;
        assert(sid % 2 == 1 && sid < 0x8000_0000) by (bit_vector)
            requires
                sid == (x & 0x7FFF_FFFFu32) | 1u32,
        ;
        let mut params: Vec<u32> = Vec::new();
        params.push(sid);
        let req = Container {
            kind: ContainerKind::Command,
            code: OpCode::OPEN_SESSION,
            transaction_id: 0,
            params,
        };
        let mut sink = NullSink::new();
        let mut src = SliceSource::new(Vec::new());
        let mut prog = super::transport::NoProgress;
        match self.run_transaction_raw(req, &mut sink, false, &mut src, false, 0, &mut prog, 0) {
            Ok(_) => {},
            Err(e) => return Err(e),
        }
        self.session = Some(SessionData { tid: 1, sid });
        Ok(())
    }

    /// `CloseSession` through the guarded path; the session is cleared
    /// whatever the outcome.
    pub(crate) fn close_session(&mut self) -> (r: Result<(), MtpError>)
        ensures
            final(self)@.session is None,
            old(self)@.closed ==> (r matches Err(e) && e@ is Closed),
            final(self)@.timeout_ms == old(self)@.timeout_ms,
            final(self)@.usb_info == old(self)@.usb_info,
            (!old(self)@.closed && old(self)@.session is None) ==> {
                &&& final(self)@.commands == old(self)@.commands.push(
                    CommandView { code: OpCode::CLOSE_SESSION, tid: 0, params: seq![] },
                )
                &&& final(self)@.command_reads == old(self)@.command_reads.push(old(self)@.reads.len())
                &&& final(self)@.resets == old(self)@.resets
                &&& final(self)@.reset_commands == old(self)@.reset_commands
                &&& final(self)@.reads.len() >= old(self)@.reads.len()
                &&& final(self)@.reads.take(old(self)@.reads.len() as int) == old(self)@.reads
                &&& final(self)@.packet_size == old(self)@.packet_size
            },
    {
        let req = close_session_req();
        let mut sink = NullSink::new();
        let mut src = SliceSource::new(Vec::new());
        let mut prog = super::transport::NoProgress;
        let res = self.run_transaction(req, &mut sink, false, &mut src, false, 0, &mut prog, 0);
        proof {
            assert(req.params@ =~= seq![]);
        }
        self.session = None;
        match res {
            Ok(_) => Ok(()),
            Err(e) => Err(e),
        }
    }

    /// Open a session over `transport` with a recovery ladder:
    /// `OpenSession`; on "session already opened", a blind `CloseSession` and
    /// a retry; on any remaining failure, a device reset, a one-second pause,
    /// and one last attempt whose error is returned (see
    /// [`recovery_ladder`]). Transfers use the 15 s session timeout. This is
    /// [`new`](Self::new) followed by
    /// [`open_with_recovery`](Self::open_with_recovery), whose contract states
    /// the ladder whatever the outcome; a failure here drops the session with
    /// its record, so only the ladder's shape of the error is left to state.
    pub fn configure<W: Pause>(transport: T, pause: &mut W) -> (r: Result<Self, MtpError>)
        ensures
            r matches Ok(s) ==> {
                &&& recovery_ladder(s@, None)
                &&& s@.session == Some(SessionData { tid: 1, sid: s@.commands.last().params[0] })
                &&& s@.timeout_ms == SESSION_TIMEOUT_MS
                &&& s@.packet_size == transport.packet_size()
            },
            r matches Err(e) ==> exists|v: SessionView| #[trigger] recovery_ladder(v, Some(e@)),
    {
        let mut sess = Self::new(transport);
        match sess.open_with_recovery(pause) {
            Ok(()) => Ok(sess),
            Err(e) => {
                proof {
                    assert(recovery_ladder(sess@, Some(e@)));
                }
                Err(e)
            },
        }
    }

    /// A session over `transport` that is not open yet and has issued
    /// nothing: no session, not closed, the 15 s session timeout, header
    /// framing undetected. [`open_with_recovery`](Self::open_with_recovery)
    /// opens it.
    pub fn new(transport: T) -> (s: Self)
        ensures
            s@.commands.len() == 0,
            s@.command_reads.len() == 0,
            s@.command_writes.len() == 0,
            s@.writes.len() == 0,
            s@.reads.len() == 0,
            s@.resets.len() == 0,
            s@.reset_commands.len() == 0,
            s@.session is None,
            !s@.closed,
            !s@.transport_closed,
            s@.timeout_ms == SESSION_TIMEOUT_MS,
            s@.separate_header == SeparateHeader::Unknown,
            s@.packet_size == transport.packet_size(),
    {
        MtpSession {
            transport,
            session: None,
            separate_header: SeparateHeader::Unknown,
            timeout_ms: SESSION_TIMEOUT_MS,
            usb_info: UsbInfo::default(),
            closed: false,
            commands: Ghost(Seq::empty()),
            writes: Ghost(Seq::empty()),
            reads: Ghost(Seq::empty()),
            command_reads: Ghost(Seq::empty()),
            command_writes: Ghost(Seq::empty()),
            resets: Ghost(Seq::empty()),
            reset_commands: Ghost(Seq::empty()),
            transport_closed: Ghost(false),
        }
    }

    /// The recovery ladder of [`configure`](Self::configure), run on a fresh
    /// session (see [`new`](Self::new)): the logs it leaves, and the outcome,
    /// follow [`recovery_ladder`], so a failure is that of the last
    /// `OpenSession`, after exactly one reset.
    pub fn open_with_recovery<W: Pause>(&mut self, pause: &mut W) -> (r: Result<(), MtpError>)
        requires
            old(self)@.commands.len() == 0,
            old(self)@.command_reads.len() == 0,
            old(self)@.reads.len() == 0,
            old(self)@.resets.len() == 0,
            old(self)@.reset_commands.len() == 0,
            old(self)@.session is None,
            !old(self)@.closed,
        ensures
            recovery_ladder(final(self)@, err_of(r)),
            r is Ok ==> final(self)@.session == Some(
                SessionData { tid: 1, sid: final(self)@.commands.last().params[0] },
            ),
            final(self)@.timeout_ms == old(self)@.timeout_ms,
            final(self)@.packet_size == old(self)@.packet_size,
    {
        let mut err = self.open_session();
        let ghost v1 = self@;
        let already_opened = match &err {
            Err(MtpError::Rc(rc)) => rc.code() == RespCode::SESSION_ALREADY_OPENED,
            _ => false,
        };
        proof {
            assert(v1.reads.skip(0) =~= v1.reads);
            assert(v1.commands.len() == 1);
            assert(v1.commands[0] == v1.commands.last());
            assert(already_opened == (rc_answer(v1.reads, false) == Some(0x201Eu16)));
        }
        let ghost mut v2 = self@;
        if already_opened {
            let _ = self.close_session();
            proof {
                v2 = self@;
            }
            err = self.open_session();
        }
        let ghost v3 = self@;
        let ghost e3 = err_of(err);
        proof {
            assert(v3.reads.take(v1.reads.len() as int) =~= v1.reads) by {
                if already_opened {
                    assert(v3.reads.take(v1.reads.len() as int) =~= v3.reads.take(v2.reads.len() as int).take(
                        v1.reads.len() as int,
                    ));
                }
            }
            assert(v3.reads.subrange(0, v1.reads.len() as int) =~= v1.reads);
            if already_opened {
                assert(v2.commands == v1.commands.push(
                    CommandView { code: OpCode::CLOSE_SESSION, tid: 0, params: seq![] },
                ));
                assert(v3.commands.drop_last() == v2.commands);
                assert(v3.commands.len() == 3);
                assert(v3.commands[0] == v3.commands.drop_last()[0]);
                assert(v3.commands[1] == v3.commands.drop_last()[1]);
                assert(v3.command_reads =~= seq![0nat, v1.reads.len(), v2.reads.len()]);
                assert(v3.reads.subrange(v2.reads.len() as int, v3.reads.len() as int) =~= v3.reads.skip(
                    v2.reads.len() as int,
                ));
                assert(tx_reads(v3, 0) =~= v1.reads);
            } else {
                assert(v3 == v1);
                assert(tx_reads(v3, 0) =~= v1.reads);
            }
        }
        match err {
            Ok(()) => Ok(()),
            Err(_) => {
                let _ = self.reset_in();
                let ghost v4 = self@;
                pause.pause(1000);
                let last = self.open_session();
                proof {
                    let v5 = self@;
                    let k: int = if already_opened { 2 } else { 0 };
                    assert(v5.commands =~= v3.commands.push(v5.commands.last()));
                    assert(v5.command_reads =~= v3.command_reads.push(v3.reads.len()));
                    assert(v5.reads.take(v3.reads.len() as int) =~= v3.reads);
                    assert(v5.reads.subrange(0, v1.reads.len() as int) =~= v1.reads) by {
                        assert(v5.reads.subrange(0, v1.reads.len() as int) =~= v3.reads.subrange(
                            0,
                            v1.reads.len() as int,
                        ));
                    }
                    assert(tx_reads(v5, 0) =~= v1.reads);
                    if already_opened {
                        assert(tx_reads(v5, 2) =~= tx_reads(v3, 2));
                    }
                    assert(tx_reads(v5, k + 1) =~= v5.reads.skip(v3.reads.len() as int));
                }
                last
            },
        }
    }

    /// Release the interface and close the device, consuming the session:
    /// the teardown of `shutdown` (a `CloseSession` when a session is open, a
    /// reset if that fails, then the transport's close).
    pub fn close(self) {
        let mut s = self;
        s.shutdown();
    }

    /// Reset the USB device.
    pub fn reset_device(&mut self) -> (r: Result<(), MtpError>)
        ensures
            final(self)@ == (SessionView {
                resets: final(self)@.resets,
                reset_commands: old(self)@.reset_commands.push(old(self)@.commands.len()),
                ..old(self)@
            }),
            final(self)@.resets.len() == old(self)@.resets.len() + 1,
            final(self)@.resets.drop_last() == old(self)@.resets,
            match final(self)@.resets.last() {
                None => r is Ok,
                Some(t) => r == Err::<(), MtpError>(MtpError::Transport(t)),
            },
    {
        let ghost before = self@.resets;
        let res = self.reset_in();
        proof {
            assert(self@.resets.drop_last() =~= before);
        }
        match res {
            Ok(()) => Ok(()),
            Err(e) => Err(MtpError::Transport(e)),
        }
    }

    /// The USB descriptor information installed for this device.
    pub fn usb_info(&self) -> (u: &UsbInfo)
        ensures
            *u == self@.usb_info,
    {
        &self.usb_info
    }

    /// Install the USB descriptor information.
    pub fn set_usb_info(&mut self, info: UsbInfo)
        ensures
            final(self)@ == (SessionView { usb_info: info, ..old(self)@ }),
    {
        self.usb_info = info;
    }

    /// Force the header-split framing on or off for later transactions.
    pub(crate) fn set_separate_header(&mut self, separate: bool)
        ensures
            final(self)@ == (SessionView {
                separate_header: if separate { SeparateHeader::Separate } else { SeparateHeader::Unknown },
                ..old(self)@
            }),
    {
        self.separate_header.force(separate);
    }
}

} // verus!
