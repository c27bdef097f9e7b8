//! The MTP operations: each builds its command, runs it through the guarded
//! transaction, and decodes what came back.
use vstd::prelude::*;
use crate::consts::{DataType, ObjectPropCode, OpCode};
use crate::container::{Container, ContainerKind};
use crate::datasets::{
    DeviceInfo, DeviceInfoView, ObjectInfo, ObjectInfoView, PropValue, PropValueView, StorageInfo,
    StorageInfoView, Uint32Array, decode_prop_value, device_info_read, object_info_bytes,
    object_info_read, prop_value_bytes, prop_value_read, prop_value_type, storage_info_read,
    lemma_prop_value_read_type,
};
use crate::datasets::reader::rd_u32_array;
use crate::error::{ProtoError, ProtoErrorView};
use super::error::{MtpError, MtpErrorView, poisons_spec};
use super::session::{
    CommandView, MtpSession, SessionView, advanced, all_accepted, command_bytes, tx_ok, tx_read_pattern,
    tx_reads, tx_writes, data_in_payload, data_out_sizes,
    data_out_writes, reply_params, saturated, source_full, stamped_tid, write_bytes,
};
use super::transport::{DataSink, DataSource, NoProgress, NullSink, ObjectProgress, SliceSource, Transport};

verus! {

/// The error of an outcome, as a view.
pub open spec fn err_view<A>(r: Result<A, MtpError>) -> Option<MtpErrorView> {
    match r {
        Ok(_) => None,
        Err(e) => Some(e@),
    }
}

/// What every operation promises of the session: a closed session refuses
/// at once and is left as it was; otherwise the operation's command, with
/// `params`, is the next one issued (stamped with the session's next
/// transaction ID), and a fatal error leaves the session closed, while any
/// other outcome leaves it open with the next transaction ID one further on.
pub open spec fn op_contract(
    old: SessionView,
    new: SessionView,
    code: u16,
    params: Seq<u32>,
    err: Option<MtpErrorView>,
) -> bool {
    &&& old.closed ==> (err == Some(MtpErrorView::Closed) && new == old)
    &&& !old.closed ==> (new.commands.len() > old.commands.len() && new.commands[old.commands.len() as int]
        == CommandView { code, tid: stamped_tid(old.session, 0), params })
    &&& (err matches Some(e) && poisons_spec(e)) ==> new.closed
    &&& (!old.closed && !(err matches Some(e) && poisons_spec(e))) ==> (!new.closed && new.session == advanced(
        old.session,
    ))
    &&& (!old.closed && (err matches Some(e) && poisons_spec(e))) ==> op_teardown(old, new)
}

/// The teardown after a fatal error: the transport is closed; when a
/// session was open, a `CloseSession` stamped with the next transaction ID
/// follows the operation's command, and the device is reset exactly when
/// that close was not answered with an OK response.
pub open spec fn op_teardown(old: SessionView, new: SessionView) -> bool {
    let next = advanced(old.session);
    let t2 = stamped_tid(next, 0);
    let answered = tx_ok(new, old.command_reads.len() + 1int, next, t2, false);
    &&& new.transport_closed
    &&& old.session is Some ==> {
        &&& new.commands.len() == old.commands.len() + 2
        &&& new.commands[old.commands.len() + 1int] == CommandView { code: OpCode::CLOSE_SESSION, tid: t2, params: seq![] }
        &&& tx_writes(new, old.command_writes.len() + 1int).len() > 0
        &&& tx_writes(new, old.command_writes.len() + 1int)[0].data == command_bytes(OpCode::CLOSE_SESSION, t2, seq![])
        &&& answered ==> new.resets == old.resets
        &&& !answered ==> new.resets.len() == old.resets.len() + 1 && new.resets.drop_last() == old.resets
    }
}

/// The bulk-IN transfers an operation owes once every bulk-OUT transfer of
/// its transaction was accepted and (`progress_ok`) no progress report
/// failed: the reads of [`tx_read_pattern`], from one packet-sized read on.
pub open spec fn op_reads(old: SessionView, new: SessionView, progress_ok: bool) -> bool {
    (!old.closed && progress_ok && all_accepted(tx_writes(new, old.command_writes.len() as int)))
        ==> tx_read_pattern(tx_reads(new, old.command_reads.len() as int), old.packet_size)
}

/// The device answered an operation's command with an OK response (see
/// [`tx_ok`]; `data_in` says whether the operation takes a data-in phase).
pub open spec fn op_ok(old: SessionView, new: SessionView, data_in: bool) -> bool {
    tx_ok(new, old.command_reads.len() as int, old.session, stamped_tid(old.session, 0), data_in)
}

/// What the device's answer decides: on an open session, an operation
/// succeeded exactly when the device answered its command with an OK
/// response (see [`op_ok`]), unless `other` holds (a later step of the
/// operation's own, such as decoding the data or a progress report, failed).
pub open spec fn op_answered(
    old: SessionView,
    new: SessionView,
    err: Option<MtpErrorView>,
    data_in: bool,
    other: bool,
) -> bool {
    &&& (!old.closed && err is None) ==> op_ok(old, new, data_in)
    &&& (!old.closed && err is Some) ==> (!op_ok(old, new, data_in) || other)
}

/// The data-in payload of the transaction an operation ran, from the reads
/// it made (see [`data_in_payload`]).
pub open spec fn reply_data(old: SessionView, new: SessionView) -> Seq<u8> {
    data_in_payload(new.reads.skip(old.reads.len() as int))
}

/// The data an operation's data-out phase carried after its 12-byte
/// header: the bytes of the transfers that followed the command packet.
pub open spec fn sent_data(old: SessionView, new: SessionView) -> Seq<u8> {
    write_bytes(new.writes.skip((old.writes.len() + 1) as int)).skip(12)
}

/// What every operation promises of the bulk-OUT transfers: unless the
/// session was closed, the command packet goes out first (stamped like the
/// command record); without a data-out phase, and short of a fatal error,
/// nothing more; with a data-out phase of `size` bytes, on success, that
/// phase's transfers follow (see [`data_out_writes`]).
pub open spec fn op_writes(
    old: SessionView,
    new: SessionView,
    code: u16,
    params: Seq<u32>,
    err: Option<MtpErrorView>,
    data_out: Option<u64>,
) -> bool {
    &&& !old.closed ==> {
        &&& new.writes.len() > old.writes.len()
        &&& new.writes.take(old.writes.len() as int) == old.writes
        &&& new.writes[old.writes.len() as int].data == command_bytes(code, stamped_tid(old.session, 0), params)
    }
    &&& (!old.closed && !(err matches Some(e) && poisons_spec(e)) && data_out is None) ==> new.writes.len()
        == old.writes.len() + 1
    &&& (!old.closed && err is None) ==> (data_out matches Some(size) ==> data_out_writes(
        new.writes.skip((old.writes.len() + 1) as int),
        code,
        stamped_tid(old.session, 0),
        size,
        old.separate_header is Separate,
        old.packet_size,
    ))
}

/// The sizes of the transfers of an operation's data-out phase of `size`
/// bytes (see [`data_out_sizes`]).
pub open spec fn sent_sizes(old: SessionView, new: SessionView, size: u64) -> bool {
    data_out_sizes(
        new.writes.skip((old.writes.len() + 1) as int),
        size,
        old.separate_header is Separate,
        old.packet_size,
    )
}

/// The data type of each standard object property's value.
pub open spec fn object_prop_datatype_spec(prop: u16) -> Option<u16> {
    match prop {
        0xDC01u16 => Some(0x0006u16),
        0xDC02u16 => Some(0x0004u16),
        0xDC03u16 => Some(0x0004u16),
        0xDC04u16 => Some(0x0008u16),
        0xDC05u16 => Some(0x0004u16),
        0xDC06u16 => Some(0x0006u16),
        0xDC07u16 => Some(0xFFFFu16),
        0xDC08u16 => Some(0xFFFFu16),
        0xDC09u16 => Some(0xFFFFu16),
        0xDC0Au16 => Some(0xFFFFu16),
        0xDC0Bu16 => Some(0x0006u16),
        0xDC0Du16 => Some(0x0004u16),
        0xDC0Eu16 => Some(0x0004u16),
        0xDC41u16 => Some(0x000Au16),
        0xDC44u16 => Some(0xFFFFu16),
        0xDC4Eu16 => Some(0xFFFFu16),
        _ => None,
    }
}

/// The object properties of the MTP standard (MTP 1.1, Appendix B) have
/// these value types: identifiers and handles 32-bit, formats and flags
/// 16-bit, the object's size 64-bit, its persistent identifier 128-bit, and
/// names, keywords and dates strings. `AllowedFolderContents`, an array,
/// has no fixed scalar type here.
pub proof fn lemma_object_prop_types_are_standard()
    ensures
        object_prop_datatype_spec(ObjectPropCode::STORAGE_ID) == Some(DataType::UINT32),
        object_prop_datatype_spec(ObjectPropCode::OBJECT_FORMAT) == Some(DataType::UINT16),
        object_prop_datatype_spec(ObjectPropCode::PROTECTION_STATUS) == Some(DataType::UINT16),
        object_prop_datatype_spec(ObjectPropCode::OBJECT_SIZE) == Some(DataType::UINT64),
        object_prop_datatype_spec(ObjectPropCode::ASSOCIATION_TYPE) == Some(DataType::UINT16),
        object_prop_datatype_spec(ObjectPropCode::ASSOCIATION_DESC) == Some(DataType::UINT32),
        object_prop_datatype_spec(ObjectPropCode::OBJECT_FILE_NAME) == Some(DataType::STR),
        object_prop_datatype_spec(ObjectPropCode::DATE_CREATED) == Some(DataType::STR),
        object_prop_datatype_spec(ObjectPropCode::DATE_MODIFIED) == Some(DataType::STR),
        object_prop_datatype_spec(ObjectPropCode::KEYWORDS) == Some(DataType::STR),
        object_prop_datatype_spec(ObjectPropCode::PARENT_OBJECT) == Some(DataType::UINT32),
        object_prop_datatype_spec(ObjectPropCode::HIDDEN) == Some(DataType::UINT16),
        object_prop_datatype_spec(ObjectPropCode::SYSTEM_OBJECT) == Some(DataType::UINT16),
        object_prop_datatype_spec(ObjectPropCode::PERSISTANT_UNIQUE_OBJECT_IDENTIFIER) == Some(DataType::UINT128),
        object_prop_datatype_spec(ObjectPropCode::NAME) == Some(DataType::STR),
        object_prop_datatype_spec(ObjectPropCode::DATE_ADDED) == Some(DataType::STR),
        object_prop_datatype_spec(ObjectPropCode::ALLOWED_FOLDER_CONTENTS) is None,
{
}

/// The data type of a standard object property's value; `None` for a
/// property this table does not know.
pub fn object_prop_datatype(prop: ObjectPropCode) -> (r: Option<u16>)
    ensures
        r == object_prop_datatype_spec(prop.0),
{
    match prop.0 {
        0xDC01 => Some(0x0006),
        0xDC02 => Some(0x0004),
        0xDC03 => Some(0x0004),
        0xDC04 => Some(0x0008),
        0xDC05 => Some(0x0004),
        0xDC06 => Some(0x0006),
        0xDC07 => Some(0xFFFF),
        0xDC08 => Some(0xFFFF),
        0xDC09 => Some(0xFFFF),
        0xDC0A => Some(0xFFFF),
        0xDC0B => Some(0x0006),
        0xDC0D => Some(0x0004),
        0xDC0E => Some(0x0004),
        0xDC41 => Some(0x000A),
        0xDC44 => Some(0xFFFF),
        0xDC4E => Some(0xFFFF),
        _ => None,
    }
}

/// A command container for `code` with `params`.
fn command(code: u16, params: Vec<u32>) -> (c: Container)
    ensures
        c.kind == ContainerKind::Command,
        c.code == code,
        c.transaction_id == 0,
        c.params@ == params@,
{
    Container { kind: ContainerKind::Command, code, transaction_id: 0, params }
}

impl<T: Transport> MtpSession<T> {
    /// Run a command whose output is its data-in phase, collected in memory.
    fn get_data(&mut self, req: Container) -> (r: Result<Vec<u8>, MtpError>)
        requires
            req.params@.len() <= 5,
            req.transaction_id == 0,
        ensures
            op_contract(old(self)@, final(self)@, req.code, req.params@, err_view(r)),
            op_writes(old(self)@, final(self)@, req.code, req.params@, err_view(r), None),
            r matches Ok(v) ==> v@ == reply_data(old(self)@, final(self)@),
            op_answered(old(self)@, final(self)@, err_view(r), true, false),
            op_reads(old(self)@, final(self)@, true),
    {
        let mut buf: Vec<u8> = Vec::new();
        let mut src = SliceSource::new(Vec::new());
        let mut prog = NoProgress;
        let r = self.run_transaction(req, &mut buf, true, &mut src, false, 0, &mut prog, 0);
        proof {
            assert(Seq::<u8>::empty() + reply_data(old(self)@, self@) =~= reply_data(old(self)@, self@));
        }
        match r {
            Ok(_) => Ok(buf),
            Err(e) => Err(e),
        }
    }

    /// Run a command with a data-out phase carrying `payload`; returns the
    /// response container.
    fn send_data(&mut self, req: Container, payload: Vec<u8>) -> (r: Result<Container, MtpError>)
        requires
            req.params@.len() <= 5,
            req.transaction_id == 0,
        ensures
            op_contract(old(self)@, final(self)@, req.code, req.params@, err_view(r)),
            op_writes(old(self)@, final(self)@, req.code, req.params@, err_view(r), Some(payload@.len() as u64)),
            r matches Ok(rep) ==> rep.kind == ContainerKind::Response && rep.code == 0x2001 && rep.params@
                == reply_params(final(self)@),
            r is Ok ==> sent_data(old(self)@, final(self)@).is_prefix_of(payload@),
            r is Ok ==> sent_sizes(old(self)@, final(self)@, payload@.len() as u64),
            op_answered(old(self)@, final(self)@, err_view(r), false, false),
            op_reads(old(self)@, final(self)@, true),
    {
        let size = payload.len() as u64;
        let ghost bytes = payload@;
        let mut src = SliceSource::new(payload);
        let mut sink = NullSink::new();
        let mut prog = NoProgress;
        let r = self.run_transaction(req, &mut sink, false, &mut src, true, size, &mut prog, 0);
        proof {
            if r is Ok {
                assert(src.yielded() =~= sent_data(old(self)@, self@));
            }
        }
        match r {
            Ok((rep, _)) => Ok(rep),
            Err(e) => Err(e),
        }
    }

    /// `GetDeviceInfo`: the device description.
    pub fn device_info(&mut self) -> (r: Result<DeviceInfo, MtpError>)
        ensures
            op_contract(old(self)@, final(self)@, OpCode::GET_DEVICE_INFO, seq![], err_view(r)),
            op_writes(old(self)@, final(self)@, OpCode::GET_DEVICE_INFO, seq![], err_view(r), None),
            r matches Ok(d) ==> (device_info_read(reply_data(old(self)@, final(self)@)) matches Ok((x, _)) && x == d@),
            op_answered(
                old(self)@,
                final(self)@,
                err_view(r),
                true,
                device_info_read(reply_data(old(self)@, final(self)@)) is Err,
            ),
            op_reads(old(self)@, final(self)@, true),
    {
        let buf = match self.get_data(command(OpCode::GET_DEVICE_INFO, Vec::new())) {
            Ok(b) => b,
            Err(e) => return Err(e),
        };
        let mut cur: &[u8] = buf.as_slice();
        match DeviceInfo::decode(&mut cur) {
            Ok(d) => {
                proof {
                    assert(device_info_read(buf@) == Ok::<(DeviceInfoView, Seq<u8>), ProtoErrorView>((d@, cur@)));
                }
                Ok(d)
            },
            Err(e) => Err(MtpError::Proto(e)),
        }
    }

    /// `GetStorageIDs`: the IDs of the device's storages.
    pub fn storage_ids(&mut self) -> (r: Result<Vec<u32>, MtpError>)
        ensures
            op_contract(old(self)@, final(self)@, OpCode::GET_STORAGE_IDS, seq![], err_view(r)),
            op_writes(old(self)@, final(self)@, OpCode::GET_STORAGE_IDS, seq![], err_view(r), None),
            r matches Ok(v) ==> (rd_u32_array(reply_data(old(self)@, final(self)@)) matches Ok((x, _)) && x == v@),
            op_answered(
                old(self)@,
                final(self)@,
                err_view(r),
                true,
                rd_u32_array(reply_data(old(self)@, final(self)@)) is Err,
            ),
            op_reads(old(self)@, final(self)@, true),
    {
        let buf = match self.get_data(command(OpCode::GET_STORAGE_IDS, Vec::new())) {
            Ok(b) => b,
            Err(e) => return Err(e),
        };
        let mut cur: &[u8] = buf.as_slice();
        match Uint32Array::decode(&mut cur) {
            Ok(a) => {
                proof {
                    assert(rd_u32_array(buf@) == Ok::<(Seq<u32>, Seq<u8>), ProtoErrorView>((a.values@, cur@)));
                }
                Ok(a.values)
            },
            Err(e) => Err(MtpError::Proto(e)),
        }
    }

    /// `GetStorageInfo` for storage `sid`.
    pub fn storage_info(&mut self, sid: u32) -> (r: Result<StorageInfo, MtpError>)
        ensures
            op_contract(old(self)@, final(self)@, OpCode::GET_STORAGE_INFO, seq![sid], err_view(r)),
            op_writes(old(self)@, final(self)@, OpCode::GET_STORAGE_INFO, seq![sid], err_view(r), None),
            r matches Ok(d) ==> (storage_info_read(reply_data(old(self)@, final(self)@)) matches Ok((x, _)) && x == d@),
            op_answered(
                old(self)@,
                final(self)@,
                err_view(r),
                true,
                storage_info_read(reply_data(old(self)@, final(self)@)) is Err,
            ),
            op_reads(old(self)@, final(self)@, true),
    {
        let mut params: Vec<u32> = Vec::new();
        params.push(sid);
        proof {
            assert(params@ =~= seq![sid]);
        }
        let buf = match self.get_data(command(OpCode::GET_STORAGE_INFO, params)) {
            Ok(b) => b,
            Err(e) => return Err(e),
        };
        let mut cur: &[u8] = buf.as_slice();
        match StorageInfo::decode(&mut cur) {
            Ok(d) => {
                proof {
                    assert(storage_info_read(buf@) == Ok::<(StorageInfoView, Seq<u8>), ProtoErrorView>((d@, cur@)));
                }
                Ok(d)
            },
            Err(e) => Err(MtpError::Proto(e)),
        }
    }

    /// `GetObjectHandles` in storage `sid`, filtered by object format
    /// (`0` = all formats), under `parent` (`0xFFFFFFFF` = the root).
    pub fn object_handles(&mut self, sid: u32, format: u16, parent: u32) -> (r: Result<Vec<u32>, MtpError>)
        ensures
            op_contract(
                old(self)@,
                final(self)@,
                OpCode::GET_OBJECT_HANDLES,
                seq![sid, format as u32, parent],
                err_view(r),
            ),
            op_writes(
                old(self)@,
                final(self)@,
                OpCode::GET_OBJECT_HANDLES,
                seq![sid, format as u32, parent],
                err_view(r), None),
            r matches Ok(v) ==> (rd_u32_array(reply_data(old(self)@, final(self)@)) matches Ok((x, _)) && x == v@),
            op_answered(
                old(self)@,
                final(self)@,
                err_view(r),
                true,
                rd_u32_array(reply_data(old(self)@, final(self)@)) is Err,
            ),
            op_reads(old(self)@, final(self)@, true),
    {
        let mut params: Vec<u32> = Vec::new();
        params.push(sid);
        params.push(format as u32);
        params.push(parent);
        proof {
            assert(params@ =~= seq![sid, format as u32, parent]);
        }
        let buf = match self.get_data(command(OpCode::GET_OBJECT_HANDLES, params)) {
            Ok(b) => b,
            Err(e) => return Err(e),
        };
        let mut cur: &[u8] = buf.as_slice();
        match Uint32Array::decode(&mut cur) {
            Ok(a) => {
                proof {
                    assert(rd_u32_array(buf@) == Ok::<(Seq<u32>, Seq<u8>), ProtoErrorView>((a.values@, cur@)));
                }
                Ok(a.values)
            },
            Err(e) => Err(MtpError::Proto(e)),
        }
    }

    /// `GetObjectInfo` for object `handle`.
    pub fn object_info(&mut self, handle: u32) -> (r: Result<ObjectInfo, MtpError>)
        ensures
            op_contract(old(self)@, final(self)@, OpCode::GET_OBJECT_INFO, seq![handle], err_view(r)),
            op_writes(old(self)@, final(self)@, OpCode::GET_OBJECT_INFO, seq![handle], err_view(r), None),
            r matches Ok(d) ==> (object_info_read(reply_data(old(self)@, final(self)@)) matches Ok((x, _)) && x == d@),
            op_answered(
                old(self)@,
                final(self)@,
                err_view(r),
                true,
                object_info_read(reply_data(old(self)@, final(self)@)) is Err,
            ),
            op_reads(old(self)@, final(self)@, true),
    {
        let mut params: Vec<u32> = Vec::new();
        params.push(handle);
        proof {
            assert(params@ =~= seq![handle]);
        }
        let buf = match self.get_data(command(OpCode::GET_OBJECT_INFO, params)) {
            Ok(b) => b,
            Err(e) => return Err(e),
        };
        let mut cur: &[u8] = buf.as_slice();
        match ObjectInfo::decode(&mut cur) {
            Ok(d) => Ok(d),
            Err(e) => Err(MtpError::Proto(e)),
        }
    }

    /// `GetObject`: stream object `handle` to `sink`, reporting the running
    /// count with the handle. Returns the bytes the sink took.
    pub fn get_object<S: DataSink, P: ObjectProgress>(&mut self, handle: u32, sink: &mut S, progress: &mut P) -> (r: Result<u64, MtpError>)
        ensures
            op_contract(old(self)@, final(self)@, OpCode::GET_OBJECT, seq![handle], err_view(r)),
            op_writes(old(self)@, final(self)@, OpCode::GET_OBJECT, seq![handle], err_view(r), None),
            final(sink).received().len() >= old(sink).received().len(),
            final(sink).received().take(old(sink).received().len() as int) == old(sink).received(),
            r matches Ok(count) ==> count == saturated(final(sink).received().len() - old(sink).received().len()),
            (old(sink).takes_all() && r is Ok) ==> final(sink).received() == old(sink).received() + reply_data(
                old(self)@,
                final(self)@,
            ),
            op_answered(
                old(self)@,
                final(self)@,
                err_view(r),
                true,
                final(progress).failures() > old(progress).failures(),
            ),
            op_reads(old(self)@, final(self)@, final(progress).failures() == old(progress).failures()),
    {
        let mut params: Vec<u32> = Vec::new();
        params.push(handle);
        proof {
            assert(params@ =~= seq![handle]);
        }
        let mut src = SliceSource::new(Vec::new());
        match self.run_transaction(command(OpCode::GET_OBJECT, params), sink, true, &mut src, false, 0, progress, handle) {
            Ok((_, taken)) => Ok(taken),
            Err(e) => Err(e),
        }
    }

    /// `GetThumb`: the thumbnail of object `handle`, or `None` when the
    /// device answers with any response code other than OK.
    pub fn get_thumb(&mut self, handle: u32) -> (r: Result<Option<Vec<u8>>, MtpError>)
        ensures
            old(self)@.closed ==> (r matches Err(e) && e@ is Closed && final(self)@ == old(self)@),
            op_contract(
                old(self)@,
                final(self)@,
                OpCode::GET_THUMB,
                seq![handle],
                match r { Ok(_) => None, Err(e) => Some(e@) },
            ) || (!old(self)@.closed && r == Ok::<Option<Vec<u8>>, MtpError>(None)),
            op_writes(
                old(self)@,
                final(self)@,
                OpCode::GET_THUMB,
                seq![handle],
                match r { Ok(_) => None, Err(e) => Some(e@) }, None),
            r matches Err(e) ==> !(e@ is Rc),
            r matches Ok(Some(b)) ==> b@ == reply_data(old(self)@, final(self)@),
            !old(self)@.closed ==> (r matches Ok(Some(_)) <==> op_ok(old(self)@, final(self)@, true)),
            op_reads(old(self)@, final(self)@, true),
    {
        let mut params: Vec<u32> = Vec::new();
        params.push(handle);
        proof {
            assert(params@ =~= seq![handle]);
        }
        match self.get_data(command(OpCode::GET_THUMB, params)) {
            Ok(buf) => Ok(Some(buf)),
            Err(MtpError::Rc(_)) => Ok(None),
            Err(e) => Err(e),
        }
    }

    /// `DeleteObject` with parameters `{handle, 0}` (0 = all formats).
    pub fn delete_object(&mut self, handle: u32) -> (r: Result<(), MtpError>)
        ensures
            op_contract(old(self)@, final(self)@, OpCode::DELETE_OBJECT, seq![handle, 0u32], err_view(r)),
            op_writes(old(self)@, final(self)@, OpCode::DELETE_OBJECT, seq![handle, 0u32], err_view(r), None),
            op_answered(old(self)@, final(self)@, err_view(r), false, false),
            op_reads(old(self)@, final(self)@, true),
    {
        let mut params: Vec<u32> = Vec::new();
        params.push(handle);
        params.push(0);
        proof {
            assert(params@ =~= seq![handle, 0u32]);
        }
        let mut sink = NullSink::new();
        let mut src = SliceSource::new(Vec::new());
        let mut prog = NoProgress;
        match self.run_transaction(command(OpCode::DELETE_OBJECT, params), &mut sink, false, &mut src, false, 0, &mut prog, 0) {
            Ok(_) => Ok(()),
            Err(e) => Err(e),
        }
    }

    /// `SendObjectInfo`: describe a new object in storage `sid` under
    /// `parent`; returns the handle the device assigned (the third response
    /// parameter). A response with fewer than three parameters is a decode
    /// error.
    pub fn send_object_info(&mut self, sid: u32, parent: u32, info: &ObjectInfo) -> (r: Result<u32, MtpError>)
        ensures
            op_contract(old(self)@, final(self)@, OpCode::SEND_OBJECT_INFO, seq![sid, parent], err_view(r)),
            op_writes(
                old(self)@,
                final(self)@,
                OpCode::SEND_OBJECT_INFO,
                seq![sid, parent],
                err_view(r),
                Some(object_info_bytes(info@).len() as u64),
            ),
            r is Ok ==> sent_data(old(self)@, final(self)@).is_prefix_of(object_info_bytes(info@)),
            r is Ok ==> sent_sizes(old(self)@, final(self)@, object_info_bytes(info@).len() as u64),
            op_reads(old(self)@, final(self)@, true),
            r matches Ok(h) ==> op_ok(old(self)@, final(self)@, false) && reply_params(final(self)@).len() >= 3 && h
                == reply_params(final(self)@)[2],
            r matches Err(e) ==> (old(self)@.closed || !op_ok(old(self)@, final(self)@, false) || (reply_params(
                final(self)@,
            ).len() < 3 && e@ == MtpErrorView::Proto(
                ProtoErrorView::Truncated { need: 3, have: reply_params(final(self)@).len() as usize },
            ))),
    {
        let mut params: Vec<u32> = Vec::new();
        params.push(sid);
        params.push(parent);
        proof {
            assert(params@ =~= seq![sid, parent]);
        }
        let mut payload: Vec<u8> = Vec::new();
        info.encode(&mut payload);
        let rep = match self.send_data(command(OpCode::SEND_OBJECT_INFO, params), payload) {
            Ok(rep) => rep,
            Err(e) => return Err(e),
        };
        if rep.params.len() < 3 {
            return Err(MtpError::Proto(ProtoError::Truncated { need: 3, have: rep.params.len() }));
        }
        Ok(rep.params[2])
    }

    /// `SendObject`: stream `size` bytes from `source` as the data of the
    /// object the preceding `SendObjectInfo` described; progress reports carry
    /// handle 0.
    pub fn send_object<R: DataSource, P: ObjectProgress>(&mut self, source: &mut R, size: u64, progress: &mut P) -> (r: Result<(), MtpError>)
        ensures
            op_contract(old(self)@, final(self)@, OpCode::SEND_OBJECT, seq![], err_view(r)),
            op_writes(old(self)@, final(self)@, OpCode::SEND_OBJECT, seq![], err_view(r), Some(size)),
            r is Ok ==> final(source).yielded() == old(source).yielded() + sent_data(old(self)@, final(self)@),
            (r is Ok && source_full(*old(source), size)) ==> sent_sizes(old(self)@, final(self)@, size),
            op_answered(
                old(self)@,
                final(self)@,
                err_view(r),
                false,
                final(progress).failures() > old(progress).failures(),
            ),
            op_reads(old(self)@, final(self)@, final(progress).failures() == old(progress).failures()),
    {
        let mut sink = NullSink::new();
        match self.run_transaction(command(OpCode::SEND_OBJECT, Vec::new()), &mut sink, false, source, true, size, progress, 0) {
            Ok(_) => Ok(()),
            Err(e) => Err(e),
        }
    }

    /// `GetObjectPropValue`, decoded by the property's standard data type; a
    /// property outside that table is refused before anything is sent.
    pub fn object_prop_value(&mut self, handle: u32, prop: ObjectPropCode) -> (r: Result<PropValue, MtpError>)
        ensures
            object_prop_datatype_spec(prop.0) is None ==> (r matches Err(e) && e@ == MtpErrorView::Proto(
                ProtoErrorView::Unsupported("GetObjectPropValue: unknown object-property data type"@),
            ) && final(self)@ == old(self)@),
            object_prop_datatype_spec(prop.0) matches Some(sel) ==> {
                &&& op_contract(
                    old(self)@,
                    final(self)@,
                    OpCode::MTP_GET_OBJECT_PROP_VALUE,
                    seq![handle, prop.0 as u32],
                    err_view(r),
                )
                &&& op_writes(
                    old(self)@,
                    final(self)@,
                    OpCode::MTP_GET_OBJECT_PROP_VALUE,
                    seq![handle, prop.0 as u32],
                    err_view(r),
                    None,
                )
                &&& r matches Ok(v) ==> (prop_value_read(reply_data(old(self)@, final(self)@), sel) matches Ok((x, _)) && x == v@)
                &&& r matches Ok(v) ==> prop_value_type(v@) == sel
                &&& op_answered(
                    old(self)@,
                    final(self)@,
                    err_view(r),
                    true,
                    prop_value_read(reply_data(old(self)@, final(self)@), sel) is Err,
                )
                &&& op_reads(old(self)@, final(self)@, true)
            },
    {
        let selector = match object_prop_datatype(prop) {
            Some(s) => s,
            None => return Err(MtpError::Proto(ProtoError::Unsupported("GetObjectPropValue: unknown object-property data type"))),
        };
        let mut params: Vec<u32> = Vec::new();
        params.push(handle);
        params.push(prop.0 as u32);
        proof {
            assert(params@ =~= seq![handle, prop.0 as u32]);
        }
        let buf = match self.get_data(command(OpCode::MTP_GET_OBJECT_PROP_VALUE, params)) {
            Ok(b) => b,
            Err(e) => return Err(e),
        };
        let mut cur: &[u8] = buf.as_slice();
        proof {
            lemma_prop_value_read_type(buf@, selector);
        }
        match decode_prop_value(&mut cur, selector) {
            Ok(v) => Ok(v),
            Err(e) => Err(MtpError::Proto(e)),
        }
    }

    /// `SetObjectPropValue`: send `v`'s bytes (see [`prop_value_bytes`]) as the
    /// new value of property `prop` of object `handle`.
    pub fn set_object_prop_value(&mut self, handle: u32, prop: ObjectPropCode, v: &PropValue) -> (r: Result<(), MtpError>)
        ensures
            op_contract(
                old(self)@,
                final(self)@,
                OpCode::MTP_SET_OBJECT_PROP_VALUE,
                seq![handle, prop.0 as u32],
                err_view(r),
            ),
            op_writes(
                old(self)@,
                final(self)@,
                OpCode::MTP_SET_OBJECT_PROP_VALUE,
                seq![handle, prop.0 as u32],
                err_view(r),
                Some(prop_value_bytes(v@).len() as u64),
            ),
            r is Ok ==> sent_data(old(self)@, final(self)@).is_prefix_of(prop_value_bytes(v@)),
            r is Ok ==> sent_sizes(old(self)@, final(self)@, prop_value_bytes(v@).len() as u64),
            op_answered(old(self)@, final(self)@, err_view(r), false, false),
            op_reads(old(self)@, final(self)@, true),
    {
        let mut params: Vec<u32> = Vec::new();
        params.push(handle);
        params.push(prop.0 as u32);
        proof {
            assert(params@ =~= seq![handle, prop.0 as u32]);
        }
        let mut payload: Vec<u8> = Vec::new();
        v.encode(&mut payload);
        match self.send_data(command(OpCode::MTP_SET_OBJECT_PROP_VALUE, params), payload) {
            Ok(_) => Ok(()),
            Err(e) => Err(e),
        }
    }
}

} // verus!
