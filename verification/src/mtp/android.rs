//! Android MTP extensions (operations `0x95C1`..`0x95C5`): ranged reads and
//! writes and in-place edits.
use vstd::prelude::*;
use crate::consts::OpCode;
use crate::container::{Container, ContainerKind};
use super::error::MtpError;
use super::ops::{err_view, op_answered, op_contract, op_reads, op_teardown, op_writes, reply_data, sent_data};
use super::session::{MtpSession, SeparateHeader, advanced, data_out_sizes, data_out_writes, source_full, stamped_tid};
use super::transport::{DataSink, DataSource, NoProgress, NullSink, SliceSource, Transport};

verus! {

/// The low 32 bits of a 64-bit offset.
pub open spec fn lo32(x: u64) -> u32 {
    (x % 0x1_0000_0000) as u32
}

/// The high 32 bits of a 64-bit offset.
pub open spec fn hi32(x: u64) -> u32 {
    (x / 0x1_0000_0000) as u32
}

fn split_offset(offset: u64) -> (r: (u32, u32))
    ensures
        r.0 == lo32(offset),
        r.1 == hi32(offset),
{
    let lo = (offset & 0xFFFF_FFFF) as u32;
    let hi = (offset >> 32) as u32;
    assert(lo == (offset % 0x1_0000_0000) as u32 && hi == (offset / 0x1_0000_0000) as u32) by (bit_vector)
        requires
            lo == (offset & 0xFFFF_FFFFu64) as u32,
            hi == (offset >> 32u64) as u32,
    ;
    (lo, hi)
}

fn command(code: u16, params: Vec<u32>) -> (c: Container)
    ensures
        c.kind == ContainerKind::Command,
        c.code == code,
        c.transaction_id == 0,
        c.params@ == params@,
{
    Container { kind: ContainerKind::Command, code, transaction_id: 0, params }
}

impl<T: Transport> MtpSession<T> {
    fn run_plain(&mut self, req: Container) -> (r: Result<(), MtpError>)
        requires
            req.params@.len() <= 5,
            req.transaction_id == 0,
        ensures
            op_contract(old(self)@, final(self)@, req.code, req.params@, err_view(r)),
            op_writes(old(self)@, final(self)@, req.code, req.params@, err_view(r), None),
            op_answered(old(self)@, final(self)@, err_view(r), false, false),
            op_reads(old(self)@, final(self)@, true),
    {
        let mut sink = NullSink::new();
        let mut src = SliceSource::new(Vec::new());
        let mut prog = NoProgress;
        match self.run_transaction(req, &mut sink, false, &mut src, false, 0, &mut prog, 0) {
            Ok(_) => Ok(()),
            Err(e) => Err(e),
        }
    }

    /// `GetPartialObject64`: stream at most `size` bytes of object `handle`
    /// from the 64-bit `offset` to `sink`, with parameters
    /// `{handle, offset low, offset high, size}`.
    pub fn get_partial_object_64<S: DataSink>(&mut self, handle: u32, sink: &mut S, offset: u64, size: u32) -> (r: Result<(), MtpError>)
        ensures
            op_contract(
                old(self)@,
                final(self)@,
                OpCode::ANDROID_GET_PARTIAL_OBJECT64,
                seq![handle, lo32(offset), hi32(offset), size],
                err_view(r),
            ),
            op_writes(
                old(self)@,
                final(self)@,
                OpCode::ANDROID_GET_PARTIAL_OBJECT64,
                seq![handle, lo32(offset), hi32(offset), size],
                err_view(r), None),
            final(sink).received().len() >= old(sink).received().len(),
            final(sink).received().take(old(sink).received().len() as int) == old(sink).received(),
            (old(sink).takes_all() && r is Ok) ==> final(sink).received() == old(sink).received() + reply_data(
                old(self)@,
                final(self)@,
            ),
            op_answered(old(self)@, final(self)@, err_view(r), true, false),
            op_reads(old(self)@, final(self)@, true),
    {
        let (lo, hi) = split_offset(offset);
        let mut params: Vec<u32> = Vec::new();
        params.push(handle);
        params.push(lo);
        params.push(hi);
        params.push(size);
        proof {
            assert(params@ =~= seq![handle, lo32(offset), hi32(offset), size]);
        }
        let mut src = SliceSource::new(Vec::new());
        let mut prog = NoProgress;
        match self.run_transaction(
            command(OpCode::ANDROID_GET_PARTIAL_OBJECT64, params),
            sink,
            true,
            &mut src,
            false,
            0,
            &mut prog,
            0,
        ) {
            Ok(_) => Ok(()),
            Err(e) => Err(e),
        }
    }

    /// `BeginEditObject`: open object `handle` for writing.
    pub fn begin_edit_object(&mut self, handle: u32) -> (r: Result<(), MtpError>)
        ensures
            op_contract(old(self)@, final(self)@, OpCode::ANDROID_BEGIN_EDIT_OBJECT, seq![handle], err_view(r)),
            op_writes(old(self)@, final(self)@, OpCode::ANDROID_BEGIN_EDIT_OBJECT, seq![handle], err_view(r), None),
            op_answered(old(self)@, final(self)@, err_view(r), false, false),
            op_reads(old(self)@, final(self)@, true),
    {
        let mut params: Vec<u32> = Vec::new();
        params.push(handle);
        proof {
            assert(params@ =~= seq![handle]);
        }
        self.run_plain(command(OpCode::ANDROID_BEGIN_EDIT_OBJECT, params))
    }

    /// `TruncateObject`: truncate object `handle` to the 64-bit `offset`.
    pub fn truncate_object(&mut self, handle: u32, offset: u64) -> (r: Result<(), MtpError>)
        ensures
            op_contract(
                old(self)@,
                final(self)@,
                OpCode::ANDROID_TRUNCATE_OBJECT,
                seq![handle, lo32(offset), hi32(offset)],
                err_view(r),
            ),
            op_writes(
                old(self)@,
                final(self)@,
                OpCode::ANDROID_TRUNCATE_OBJECT,
                seq![handle, lo32(offset), hi32(offset)],
                err_view(r), None),
            op_answered(old(self)@, final(self)@, err_view(r), false, false),
            op_reads(old(self)@, final(self)@, true),
    {
        let (lo, hi) = split_offset(offset);
        let mut params: Vec<u32> = Vec::new();
        params.push(handle);
        params.push(lo);
        params.push(hi);
        proof {
            assert(params@ =~= seq![handle, lo32(offset), hi32(offset)]);
        }
        self.run_plain(command(OpCode::ANDROID_TRUNCATE_OBJECT, params))
    }

    /// `SendPartialObject`: write `size` bytes from `source` into object
    /// `handle` at the 64-bit `offset`. The data header is forced into a
    /// packet of its own for this one transaction (some devices write bytes
    /// that share the header's packet at the wrong offset), and the framing
    /// is reset to `Unknown` afterwards whatever the outcome.
    pub fn send_partial_object<R: DataSource>(&mut self, handle: u32, offset: u64, size: u32, source: &mut R) -> (r: Result<(), MtpError>)
        ensures
            old(self)@.closed ==> (r matches Err(e) && e@ is Closed),
            !old(self)@.closed ==> (final(self)@.commands.len() > old(self)@.commands.len()
                && final(self)@.commands[old(self)@.commands.len() as int].code
                == OpCode::ANDROID_SEND_PARTIAL_OBJECT && final(self)@.commands[old(self)@.commands.len() as int].params
                == seq![handle, lo32(offset), hi32(offset), size]),
            final(self)@.separate_header == SeparateHeader::Unknown,
            final(self)@.closed == (old(self)@.closed || (r matches Err(e) && super::error::poisons_spec(e@))),
            !old(self)@.closed ==> {
                &&& final(self)@.writes.len() > old(self)@.writes.len()
                &&& final(self)@.writes.take(old(self)@.writes.len() as int) == old(self)@.writes
                &&& r is Ok ==> data_out_writes(
                    final(self)@.writes.skip((old(self)@.writes.len() + 1) as int),
                    OpCode::ANDROID_SEND_PARTIAL_OBJECT,
                    stamped_tid(old(self)@.session, 0),
                    size as u64,
                    true,
                    old(self)@.packet_size,
                )
                &&& (r is Ok && source_full(*old(source), size as u64)) ==> data_out_sizes(
                    final(self)@.writes.skip((old(self)@.writes.len() + 1) as int),
                    size as u64,
                    true,
                    old(self)@.packet_size,
                )
            },
            r is Ok ==> final(source).yielded() == old(source).yielded() + sent_data(old(self)@, final(self)@),
            (!old(self)@.closed && !(r matches Err(e) && super::error::poisons_spec(e@))) ==> final(self)@.session
                == advanced(old(self)@.session),
            (!old(self)@.closed && (r matches Err(e) && super::error::poisons_spec(e@))) ==> op_teardown(
                old(self)@,
                final(self)@,
            ),
            op_answered(old(self)@, final(self)@, err_view(r), false, false),
            op_reads(old(self)@, final(self)@, true),
    {
        let (lo, hi) = split_offset(offset);
        let mut params: Vec<u32> = Vec::new();
        params.push(handle);
        params.push(lo);
        params.push(hi);
        params.push(size);
        proof {
            assert(params@ =~= seq![handle, lo32(offset), hi32(offset), size]);
        }
        self.set_separate_header(true);
        let mut sink = NullSink::new();
        let mut prog = NoProgress;
        let res = self.run_transaction(
            command(OpCode::ANDROID_SEND_PARTIAL_OBJECT, params),
            &mut sink,
            false,
            source,
            true,
            size as u64,
            &mut prog,
            0,
        );
        self.set_separate_header(false);
        match res {
            Ok(_) => Ok(()),
            Err(e) => Err(e),
        }
    }

    /// `EndEditObject`: close object `handle` after writing.
    pub fn end_edit_object(&mut self, handle: u32) -> (r: Result<(), MtpError>)
        ensures
            op_contract(old(self)@, final(self)@, OpCode::ANDROID_END_EDIT_OBJECT, seq![handle], err_view(r)),
            op_writes(old(self)@, final(self)@, OpCode::ANDROID_END_EDIT_OBJECT, seq![handle], err_view(r), None),
            op_answered(old(self)@, final(self)@, err_view(r), false, false),
            op_reads(old(self)@, final(self)@, true),
    {
        let mut params: Vec<u32> = Vec::new();
        params.push(handle);
        proof {
            assert(params@ =~= seq![handle]);
        }
        self.run_plain(command(OpCode::ANDROID_END_EDIT_OBJECT, params))
    }
}

} // verus!
