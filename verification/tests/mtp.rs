use std::collections::VecDeque;
use std::sync::{Arc, Mutex};

use keel::consts::{ObjectPropCode, OpCode, RespCode};
use keel::datasets::{ObjectInfo, PropValue};
use keel::container::{Container, ContainerKind, HDR_LEN};
use keel::error::{ProtoError, RcError};
use keel::mtp::ops::object_prop_datatype;
use keel::mtp::{MtpError, MtpSession, NoProgress, Pause, SliceSource, Transport, TransportError};

#[test]
fn only_sync_and_transport_poison() {
    assert!(MtpError::Sync("desync".into()).poisons());
    assert!(MtpError::Transport(TransportError::Timeout).poisons());
    assert!(MtpError::Transport(TransportError::DeviceGone).poisons());
    assert!(!MtpError::Rc(RcError(RespCode(RespCode::STORE_FULL))).poisons());
    assert!(!MtpError::Proto(ProtoError::Truncated { need: 12, have: 4 }).poisons());
    assert!(!MtpError::Closed.poisons());
}

#[test]
fn closed_display_keeps_ffi_substring() {
    assert!(MtpError::Closed.to_string().contains("device is not open"));
}

#[test]
fn rc_display_is_bare_name_for_ffi_match() {
    assert!(MtpError::Rc(RcError(RespCode(RespCode::STORE_FULL))).to_string().contains("StoreFull"));
    assert!(MtpError::Rc(RcError(RespCode(RespCode::STORE_NOT_AVAILABLE)))
        .to_string()
        .contains("StoreNotAvailable"));
}

#[test]
fn device_gone_display_keeps_libusb_marker() {
    assert!(MtpError::Transport(TransportError::DeviceGone).to_string().contains("LIBUSB_ERROR_NO_DEVICE"));
}

// ---------------------------------------------------------------------------
// A scripted transport: each bulk_in returns one scripted packet, each
// bulk_out is recorded verbatim.
// ---------------------------------------------------------------------------

#[derive(Default)]
struct Shared {
    in_queue: VecDeque<Vec<u8>>,
    writes: Vec<Vec<u8>>,
    reset_count: usize,
    closed: bool,
}

struct FakeDevice {
    mps: usize,
    shared: Arc<Mutex<Shared>>,
}

fn fake(mps: usize, ins: Vec<Vec<u8>>) -> (FakeDevice, Arc<Mutex<Shared>>) {
    let shared = Arc::new(Mutex::new(Shared { in_queue: ins.into(), ..Default::default() }));
    (FakeDevice { mps, shared: Arc::clone(&shared) }, shared)
}

impl Transport for FakeDevice {
    fn bulk_out(&mut self, data: &[u8], _timeout_ms: u64) -> Result<usize, TransportError> {
        let mut s = self.shared.lock().unwrap();
        if s.closed {
            return Err(TransportError::Io("fake transport closed".into()));
        }
        s.writes.push(data.to_vec());
        Ok(data.len())
    }

    fn bulk_in(&mut self, max_len: usize, _timeout_ms: u64) -> Result<Vec<u8>, TransportError> {
        let pkt = {
            let mut s = self.shared.lock().unwrap();
            if s.closed {
                return Err(TransportError::Io("fake transport closed".into()));
            }
            s.in_queue.pop_front()
        };
        let pkt = pkt.expect("FakeDevice: bulk_in past end of script");
        assert!(pkt.len() <= max_len, "scripted packet exceeds the read size");
        Ok(pkt)
    }

    fn reset(&mut self) -> Result<(), TransportError> {
        self.shared.lock().unwrap().reset_count += 1;
        Ok(())
    }

    fn packet_size(&self) -> usize {
        self.mps
    }

    fn max_packet_size(&self) -> usize {
        self.mps
    }

    fn close(&mut self) {
        self.shared.lock().unwrap().closed = true;
    }
}

struct NoPause;

impl Pause for NoPause {
    fn pause(&mut self, _millis: u64) {}
}

const MPS: usize = 512;

fn header(length: u32, kind: ContainerKind, code: u16, tid: u32) -> Vec<u8> {
    let mut v = Vec::with_capacity(HDR_LEN as usize);
    v.extend_from_slice(&length.to_le_bytes());
    v.extend_from_slice(&kind.as_u16().to_le_bytes());
    v.extend_from_slice(&code.to_le_bytes());
    v.extend_from_slice(&tid.to_le_bytes());
    v
}

fn response(code: u16, tid: u32) -> Vec<u8> {
    header(HDR_LEN, ContainerKind::Response, code, tid)
}

fn data_packet(declared_len: u32, code: u16, tid: u32, payload: &[u8]) -> Vec<u8> {
    let mut v = header(declared_len, ContainerKind::Data, code, tid);
    v.extend_from_slice(payload);
    v
}

fn decode_write(w: &[u8]) -> (ContainerKind, u16, u32, u32) {
    let (c, len) = Container::decode_header(w).expect("recorded write is a valid container header");
    (c.kind, c.code, c.transaction_id, len)
}

fn write_params(w: &[u8]) -> Vec<u32> {
    w[HDR_LEN as usize..].chunks_exact(4).map(|b| u32::from_le_bytes([b[0], b[1], b[2], b[3]])).collect()
}

fn write_payload(w: &[u8]) -> &[u8] {
    &w[HDR_LEN as usize..]
}

#[test]
fn separate_header_autodetect_then_mirrored_writes() {
    let ins = vec![
        response(RespCode::OK, 0),
        data_packet(HDR_LEN + 2, OpCode::GET_OBJECT, 1, &[]),
        vec![0x48, 0x49],
        response(RespCode::OK, 1),
        response(RespCode::OK, 2),
    ];
    let (dev, shared) = fake(MPS, ins);
    let mut session = MtpSession::configure(dev, &mut NoPause).expect("configure");

    let mut sink: Vec<u8> = Vec::new();
    let n = session.get_object(5, &mut sink, &mut NoProgress).expect("get_object");
    assert_eq!(n, 2);
    assert_eq!(sink, vec![0x48, 0x49]);

    let payload = [0xAA, 0xBB, 0xCC, 0xDD];
    session
        .send_object(&mut SliceSource::new(payload.to_vec()), payload.len() as u64, &mut NoProgress)
        .expect("send_object");

    let w = shared.lock().unwrap();
    assert_eq!(w.writes.len(), 5);
    let hdr = &w.writes[3];
    assert_eq!(hdr.len(), HDR_LEN as usize);
    let (kind, code, tid, len) = decode_write(hdr);
    assert_eq!(kind, ContainerKind::Data);
    assert_eq!(code, OpCode::SEND_OBJECT);
    assert_eq!(tid, 2);
    assert_eq!(len, HDR_LEN + 4);
    assert!(write_payload(hdr).is_empty());
    assert_eq!(&w.writes[4][..], &payload);
    assert!(w.writes.iter().all(|x| !x.is_empty()));
    let sid = write_params(&w.writes[0])[0];
    assert_eq!(sid & 1, 1);
    assert_ne!(sid, 0xFFFF_FFFF);
}

#[test]
fn coalesced_header_device() {
    let ins = vec![
        response(RespCode::OK, 0),
        data_packet(HDR_LEN + 4, OpCode::GET_OBJECT, 1, &[0x41, 0x42]),
        vec![0x43, 0x44],
        response(RespCode::OK, 1),
        response(RespCode::OK, 2),
    ];
    let (dev, shared) = fake(MPS, ins);
    let mut session = MtpSession::configure(dev, &mut NoPause).expect("configure");

    let mut sink: Vec<u8> = Vec::new();
    let n = session.get_object(5, &mut sink, &mut NoProgress).expect("get_object");
    assert_eq!(n, 4);
    assert_eq!(sink, b"ABCD");

    let payload = [0xAA, 0xBB, 0xCC, 0xDD];
    session
        .send_object(&mut SliceSource::new(payload.to_vec()), payload.len() as u64, &mut NoProgress)
        .expect("send_object");

    let w = shared.lock().unwrap();
    let data_write = &w.writes[3];
    let (kind, code, _tid, len) = decode_write(data_write);
    assert_eq!(kind, ContainerKind::Data);
    assert_eq!(code, OpCode::SEND_OBJECT);
    assert_eq!(len, HDR_LEN + 4);
    assert_eq!(data_write.len(), HDR_LEN as usize + 4);
    assert_eq!(write_payload(data_write), &payload);
    assert_eq!(w.writes.len(), 5);
    assert!(w.writes[4].is_empty());
}

#[test]
fn xhci_response_in_place_of_null_packet() {
    let ins = vec![
        response(RespCode::OK, 0),
        data_packet(1024, OpCode::GET_OBJECT, 1, &[0u8; 500]),
        vec![0u8; 512],
        response(RespCode::OK, 1),
    ];
    let (dev, shared) = fake(MPS, ins);
    let mut session = MtpSession::configure(dev, &mut NoPause).expect("configure");

    let mut sink: Vec<u8> = Vec::new();
    let n = session.get_object(9, &mut sink, &mut NoProgress).expect("get_object");
    assert_eq!(n, 500 + 512);
    assert_eq!(sink.len(), 1012);

    let w = shared.lock().unwrap();
    assert!(w.in_queue.is_empty());
    assert_eq!(w.writes.len(), 2);
    assert_eq!(w.reset_count, 0);
}

#[test]
fn session_already_opened_blind_close_then_retry() {
    let ins = vec![
        response(RespCode::SESSION_ALREADY_OPENED, 0),
        response(RespCode::OK, 0),
        response(RespCode::OK, 0),
        response(RespCode::OK, 1),
    ];
    let (dev, shared) = fake(MPS, ins);
    let mut session = MtpSession::configure(dev, &mut NoPause).expect("configure recovers from 0x201E");
    session.delete_object(9).expect("delete_object after recovery");

    let w = shared.lock().unwrap();
    assert_eq!(w.reset_count, 0);
    assert_eq!(w.writes.len(), 4);
    assert_eq!(decode_write(&w.writes[0]).1, OpCode::OPEN_SESSION);
    assert_eq!(decode_write(&w.writes[1]).1, OpCode::CLOSE_SESSION);
    assert_eq!(decode_write(&w.writes[2]).1, OpCode::OPEN_SESSION);
    assert_eq!(decode_write(&w.writes[0]).2, 0);
    assert_eq!(decode_write(&w.writes[2]).2, 0);
    assert_eq!(write_params(&w.writes[0])[0] & 1, 1);
    assert_eq!(write_params(&w.writes[2])[0] & 1, 1);
    let (_k, code, tid, _len) = decode_write(&w.writes[3]);
    assert_eq!(code, OpCode::DELETE_OBJECT);
    assert_eq!(tid, 1);
    assert_eq!(write_params(&w.writes[3]), vec![9, 0]);
}

#[test]
fn garbage_tid_syncerror_poisons_session() {
    let ins = vec![
        response(RespCode::OK, 0),
        response(RespCode::OK, 0xDEAD_BEEF),
        response(RespCode::OK, 2),
    ];
    let (dev, shared) = fake(MPS, ins);
    let mut session = MtpSession::configure(dev, &mut NoPause).expect("configure");

    let mut sink: Vec<u8> = Vec::new();
    let err = session.get_object(7, &mut sink, &mut NoProgress).expect_err("tid mismatch must fail");
    assert!(matches!(err, MtpError::Sync(_)), "tid mismatch is a SyncError, got {err:?}");

    let after = session.delete_object(1).expect_err("poisoned session rejects further ops");
    assert!(matches!(after, MtpError::Closed), "post-poison ops return Closed, got {after:?}");

    let w = shared.lock().unwrap();
    assert!(w.closed);
    assert_eq!(w.reset_count, 0);
    assert_eq!(w.writes.len(), 3);
    let (_k, code, tid, _len) = decode_write(&w.writes[2]);
    assert_eq!(code, OpCode::CLOSE_SESSION);
    assert_eq!(tid, 2);
    assert!(w.in_queue.is_empty());
}

#[test]
fn four_gib_length_saturation_on_get_object() {
    let ins = vec![
        response(RespCode::OK, 0),
        data_packet(0xFFFF_FFFF, OpCode::GET_OBJECT, 1, &[0u8; 500]),
        vec![0u8; 400],
        response(RespCode::OK, 1),
    ];
    let (dev, shared) = fake(MPS, ins);
    let mut session = MtpSession::configure(dev, &mut NoPause).expect("configure");

    let mut sink: Vec<u8> = Vec::new();
    let n = session.get_object(11, &mut sink, &mut NoProgress).expect("get_object");
    assert_eq!(n, 900);
    assert_eq!(sink.len(), 900);

    let w = shared.lock().unwrap();
    assert!(w.in_queue.is_empty());
}

#[test]
fn get_object_sink_receives_every_data_byte_in_order() {
    let first: Vec<u8> = (0..500u32).map(|i| (i % 251) as u8).collect();
    let full: Vec<u8> = (0..16384u32).map(|i| (i % 241) as u8).collect();
    let tail: Vec<u8> = vec![7, 8, 9, 10, 11, 12, 13, 14, 15, 16];
    let total = HDR_LEN + 500 + 16384 + 10;
    let ins = vec![
        response(RespCode::OK, 0),
        data_packet(total, OpCode::GET_OBJECT, 1, &first),
        full.clone(),
        tail.clone(),
        response(RespCode::OK, 1),
    ];
    let (dev, shared) = fake(MPS, ins);
    let mut session = MtpSession::configure(dev, &mut NoPause).expect("configure");
    let mut sink: Vec<u8> = Vec::new();
    let n = session.get_object(3, &mut sink, &mut NoProgress).expect("get_object");
    let mut expected = first.clone();
    expected.extend_from_slice(&full);
    expected.extend_from_slice(&tail);
    assert_eq!(n, expected.len() as u64);
    assert_eq!(sink, expected);
    assert!(shared.lock().unwrap().in_queue.is_empty());
}

#[test]
fn set_object_prop_value_sends_header_then_encoded_value() {
    let ins = vec![response(RespCode::OK, 0), response(RespCode::OK, 1)];
    let (dev, shared) = fake(MPS, ins);
    let mut session = MtpSession::configure(dev, &mut NoPause).expect("configure");
    session
        .set_object_prop_value(9, ObjectPropCode(ObjectPropCode::OBJECT_FILE_NAME), &PropValue::Str("ab".to_string()))
        .expect("set_object_prop_value");
    let w = shared.lock().unwrap();
    // Command, then the data container: the string as count, UTF-16 units, terminator.
    let data = &w.writes[2];
    let (kind, code, _tid, len) = decode_write(data);
    assert_eq!(kind, ContainerKind::Data);
    assert_eq!(code, OpCode::MTP_SET_OBJECT_PROP_VALUE);
    assert_eq!(write_payload(data), &[3, b'a', 0, b'b', 0, 0, 0]);
    assert_eq!(len, HDR_LEN + 7);
}

fn response_with(code: u16, tid: u32, params: &[u32]) -> Vec<u8> {
    let mut v = header(HDR_LEN + 4 * params.len() as u32, ContainerKind::Response, code, tid);
    for p in params {
        v.extend_from_slice(&p.to_le_bytes());
    }
    v
}

fn sample_info() -> ObjectInfo {
    ObjectInfo {
        storage_id: 0x00010001,
        object_format: 0x3000,
        protection_status: 0,
        compressed_size: 3,
        thumb_format: 0,
        thumb_compressed_size: 0,
        thumb_pix_width: 0,
        thumb_pix_height: 0,
        image_pix_width: 0,
        image_pix_height: 0,
        image_bit_depth: 0,
        parent_object: 0xFFFFFFFF,
        association_type: 0,
        association_desc: 0,
        sequence_number: 0,
        filename: "a.txt".to_string(),
        capture_date: None,
        modification_date: None,
        keywords: String::new(),
    }
}

#[test]
fn send_object_info_returns_third_response_parameter() {
    let ins = vec![response(RespCode::OK, 0), response_with(RespCode::OK, 1, &[0x00010001, 0xFFFFFFFF, 77])];
    let (dev, shared) = fake(MPS, ins);
    let mut session = MtpSession::configure(dev, &mut NoPause).expect("configure");
    let h = session.send_object_info(0x00010001, 0xFFFFFFFF, &sample_info()).expect("send_object_info");
    assert_eq!(h, 77);
    let w = shared.lock().unwrap();
    let (_k, code, tid, _len) = decode_write(&w.writes[1]);
    assert_eq!(code, OpCode::SEND_OBJECT_INFO);
    assert_eq!(tid, 1);
    assert_eq!(write_params(&w.writes[1]), vec![0x00010001, 0xFFFFFFFF]);
}

#[test]
fn send_object_info_short_response_is_truncated_and_session_stays_open() {
    let ins = vec![
        response(RespCode::OK, 0),
        response_with(RespCode::OK, 1, &[0x00010001, 0xFFFFFFFF]),
        response(RespCode::OK, 2),
    ];
    let (dev, shared) = fake(MPS, ins);
    let mut session = MtpSession::configure(dev, &mut NoPause).expect("configure");
    let err = session.send_object_info(0x00010001, 0xFFFFFFFF, &sample_info()).unwrap_err();
    assert!(matches!(err, MtpError::Proto(ProtoError::Truncated { need: 3, have: 2 })));
    session.delete_object(5).expect("session still open");
    let w = shared.lock().unwrap();
    let (_k, code, tid, _len) = decode_write(w.writes.last().unwrap());
    assert_eq!(code, OpCode::DELETE_OBJECT);
    assert_eq!(tid, 2);
}

#[test]
fn date_added_is_a_string_property() {
    assert_eq!(object_prop_datatype(ObjectPropCode(ObjectPropCode::DATE_ADDED)), Some(0xFFFF));
    assert_eq!(object_prop_datatype(ObjectPropCode(0xDC0C)), None);
}

#[test]
fn failed_open_resets_once_then_last_open_decides() {
    let ins = vec![response(RespCode::GENERAL_ERROR, 0), response(RespCode::OK, 0)];
    let (dev, shared) = fake(MPS, ins);
    let _session = MtpSession::configure(dev, &mut NoPause).expect("configure after reset");
    let w = shared.lock().unwrap();
    assert_eq!(w.reset_count, 1);
    assert_eq!(w.writes.len(), 2);
    assert_eq!(decode_write(&w.writes[0]).1, OpCode::OPEN_SESSION);
    assert_eq!(decode_write(&w.writes[1]).1, OpCode::OPEN_SESSION);
}

#[test]
fn date_added_value_is_read_as_a_string() {
    let payload = [3u8, b'a', 0, b'b', 0, 0, 0];
    let ins = vec![
        response(RespCode::OK, 0),
        data_packet(HDR_LEN + payload.len() as u32, OpCode::MTP_GET_OBJECT_PROP_VALUE, 1, &payload),
        response(RespCode::OK, 1),
    ];
    let (dev, shared) = fake(MPS, ins);
    let mut session = MtpSession::configure(dev, &mut NoPause).expect("configure");
    let v = session.object_prop_value(11, ObjectPropCode(ObjectPropCode::DATE_ADDED)).expect("value");
    assert_eq!(v, PropValue::Str("ab".to_string()));
    let w = shared.lock().unwrap();
    assert_eq!(decode_write(&w.writes[1]).1, OpCode::MTP_GET_OBJECT_PROP_VALUE);
    assert_eq!(write_params(&w.writes[1]), vec![11, 0xDC4E]);
}

#[test]
fn fresh_session_opens_through_the_ladder() {
    let ins = vec![response(RespCode::OK, 0), response(RespCode::OK, 1)];
    let (dev, shared) = fake(MPS, ins);
    let mut session = MtpSession::new(dev);
    session.open_with_recovery(&mut NoPause).expect("open");
    session.delete_object(9).expect("delete");
    let w = shared.lock().unwrap();
    assert_eq!(w.reset_count, 0);
    assert_eq!(decode_write(&w.writes[0]).1, OpCode::OPEN_SESSION);
    assert_eq!(decode_write(&w.writes[1]).2, 1);
}

#[test]
fn ladder_failure_returns_last_open_error_after_one_reset() {
    let ins = vec![response(RespCode::GENERAL_ERROR, 0), response(RespCode::STORE_FULL, 0)];
    let (dev, shared) = fake(MPS, ins);
    let err = match MtpSession::configure(dev, &mut NoPause) {
        Ok(_) => panic!("configure should fail"),
        Err(e) => e,
    };
    assert!(matches!(err, MtpError::Rc(rc) if rc.code() == RespCode::STORE_FULL));
    let w = shared.lock().unwrap();
    assert_eq!(w.reset_count, 1);
    assert_eq!(w.writes.len(), 2);
    assert_eq!(decode_write(&w.writes[1]).1, OpCode::OPEN_SESSION);
}

#[test]
fn shutdown_closes_session_then_transport() {
    let ins = vec![response(RespCode::OK, 0), response(RespCode::OK, 1)];
    let (dev, shared) = fake(MPS, ins);
    let mut session = MtpSession::configure(dev, &mut NoPause).expect("configure");
    session.shutdown();
    {
        let w = shared.lock().unwrap();
        let (_k, code, tid, _len) = decode_write(w.writes.last().unwrap());
        assert_eq!(code, OpCode::CLOSE_SESSION);
        assert_eq!(tid, 1);
        assert_eq!(w.reset_count, 0);
        assert!(w.closed);
    }
    assert!(matches!(session.delete_object(3), Err(MtpError::Closed)));
    assert_eq!(shared.lock().unwrap().writes.len(), 2);
}
