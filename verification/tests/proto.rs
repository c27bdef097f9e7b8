use keel::consts::{
    AccessCapability, AssociationType, CodeKind, DataType, DevicePropCode, EventCode,
    FilesystemType, ObjectFormat, ObjectPropCode, OpCode, RespCode, StorageType, code_name,
};
use keel::container::{Container, ContainerKind, HDR_LEN, MAX_PARAMS};
use keel::error::{ProtoError, RcError, rc_name};

#[test]
fn spot_check_values() {
    assert_eq!(OpCode(OpCode::GET_DEVICE_INFO), OpCode(0x1001));
    assert_eq!(OpCode(OpCode::OPEN_SESSION), OpCode(0x1002));
    assert_eq!(OpCode(OpCode::SEND_OBJECT), OpCode(0x100D));
    assert_eq!(OpCode(OpCode::GET_STORAGE_IDS), OpCode(0x1004));
    assert_eq!(OpCode(OpCode::MTP_GET_OBJECT_PROP_VALUE), OpCode(0x9803));
    assert_eq!(OpCode(OpCode::ANDROID_GET_PARTIAL_OBJECT64), OpCode(0x95C1));
    assert_eq!(OpCode(OpCode::ANDROID_SEND_PARTIAL_OBJECT), OpCode(0x95C2));
    assert_eq!(OpCode(OpCode::ANDROID_TRUNCATE_OBJECT), OpCode(0x95C3));
    assert_eq!(OpCode(OpCode::ANDROID_BEGIN_EDIT_OBJECT), OpCode(0x95C4));
    assert_eq!(OpCode(OpCode::ANDROID_END_EDIT_OBJECT), OpCode(0x95C5));
    assert_eq!(RespCode(RespCode::OK), RespCode(0x2001));
    assert_eq!(RespCode(RespCode::GENERAL_ERROR), RespCode(0x2002));
    assert_eq!(RespCode(RespCode::INVALID_OBJECT_HANDLE), RespCode(0x2009));
    assert_eq!(RespCode(RespCode::SESSION_ALREADY_OPENED), RespCode(0x201E));
    assert_eq!(EventCode(EventCode::OBJECT_ADDED), EventCode(0x4002));
    assert_eq!(EventCode(EventCode::STORE_FULL), EventCode(0x400A));
    assert_eq!(ObjectFormat(ObjectFormat::ASSOCIATION), ObjectFormat(0x3001));
    assert_eq!(ObjectFormat(ObjectFormat::MTP_MP4), ObjectFormat(0xB982));
    assert_eq!(ObjectPropCode(ObjectPropCode::OBJECT_FILE_NAME), ObjectPropCode(0xDC07));
    assert_eq!(ObjectPropCode(ObjectPropCode::OBJECT_SIZE), ObjectPropCode(0xDC04));
    assert_eq!(ObjectPropCode(ObjectPropCode::STORAGE_ID), ObjectPropCode(0xDC01));
    assert_eq!(DataType(DataType::UINT128), DataType(0x000A));
    assert_eq!(DataType(DataType::INT128), DataType(0x0009));
    assert_eq!(DataType(DataType::STR), DataType(0xFFFF));
    assert_eq!(DataType(DataType::ARRAY_MASK), DataType(0x4000));
    assert_eq!(DevicePropCode(DevicePropCode::BATTERY_LEVEL), DevicePropCode(0x5001));
    assert_eq!(StorageType(StorageType::REMOVABLE_RAM), StorageType(0x0004));
    assert_eq!(FilesystemType(FilesystemType::DCF), FilesystemType(0x0003));
    assert_eq!(AccessCapability(AccessCapability::READ_ONLY), AccessCapability(0x0001));
    assert_eq!(
        AccessCapability(AccessCapability::READ_ONLY_WITH_OBJECT_DELETION),
        AccessCapability(0x0002)
    );
}

#[test]
fn documented_deviations_preserve_values() {
    assert_eq!(AssociationType(AssociationType::PANORAMIC_2D), AssociationType(0x0006));
    assert_eq!(DevicePropCode(DevicePropCode::NIKON_ISO_AUTO), DevicePropCode(0xD054));
    assert_eq!(DevicePropCode(DevicePropCode::NIKON_ISO_AUTO_ALT), DevicePropCode(0xD16A));
}

#[test]
fn code_name_lookup_matches_go_maps() {
    assert_eq!(code_name(CodeKind::Op, 0x1001), Some("GetDeviceInfo"));
    assert_eq!(code_name(CodeKind::Resp, 0x201E), Some("SessionAlreadyOpened"));
    assert_eq!(code_name(CodeKind::ObjectFormat, 0x3001), Some("Association"));
    assert_eq!(code_name(CodeKind::ObjectProp, 0xDC07), Some("ObjectFileName"));
    assert_eq!(code_name(CodeKind::DataType, 0x000A), Some("UINT128"));
    assert_eq!(code_name(CodeKind::Op, 0x95C1), Some("ANDROID_GET_PARTIAL_OBJECT64"));
    assert_eq!(code_name(CodeKind::Op, 0x9001), None);
    assert_eq!(code_name(CodeKind::Op, 0xFFFF), None);
}

#[test]
fn display_uses_spec_name_else_hex() {
    assert_eq!(OpCode(OpCode::GET_DEVICE_INFO).to_string(), "GetDeviceInfo");
    assert_eq!(RespCode(RespCode::OK).to_string(), "OK");
    assert_eq!(OpCode(0x9001).to_string(), "0x9001");
}

#[test]
fn header_len_and_max_params() {
    assert_eq!(HDR_LEN, 12);
    assert_eq!(MAX_PARAMS, 5);
}

#[test]
fn encode_command_no_params() {
    let c = Container { kind: ContainerKind::Command, code: 0x1001, transaction_id: 7, params: vec![] };
    let h = c.encode_header(0);
    assert_eq!(h, [0x0C, 0x00, 0x00, 0x00, 0x01, 0x00, 0x01, 0x10, 0x07, 0x00, 0x00, 0x00]);
}

#[test]
fn encode_command_with_params_payload_len() {
    let c = Container {
        kind: ContainerKind::Command,
        code: 0x1005,
        transaction_id: 1,
        params: vec![0xFFFF_FFFF, 0],
    };
    let h = c.encode_header((c.params.len() * 4) as u64);
    assert_eq!(&h[0..4], &20u32.to_le_bytes());
    assert_eq!(&h[4..6], &1u16.to_le_bytes());
}

#[test]
fn encode_saturates_over_4gib() {
    let c = Container { kind: ContainerKind::Data, code: 0x1009, transaction_id: 42, params: vec![] };
    let h = c.encode_header(5 * 1024 * 1024 * 1024);
    assert_eq!(&h[0..4], &0xFFFF_FFFFu32.to_le_bytes());
    assert_eq!(&h[4..6], &2u16.to_le_bytes());
}

#[test]
fn encode_saturation_boundary_is_exact() {
    let c = Container::default();
    let just_under = 0xFFFF_FFFFu64 - HDR_LEN as u64;
    assert_eq!(u32::from_le_bytes(c.encode_header(just_under)[0..4].try_into().unwrap()), 0xFFFF_FFFF);
    assert_eq!(u32::from_le_bytes(c.encode_header(just_under + 1)[0..4].try_into().unwrap()), 0xFFFF_FFFF);
    assert_eq!(u32::from_le_bytes(c.encode_header(just_under - 1)[0..4].try_into().unwrap()), 0xFFFF_FFFE);
}

#[test]
fn decode_roundtrips_header() {
    let c = Container { kind: ContainerKind::Response, code: 0x2001, transaction_id: 99, params: vec![] };
    let h = c.encode_header(0);
    let (got, length) = Container::decode_header(&h).unwrap();
    assert_eq!(length, 12);
    assert_eq!(got.kind, ContainerKind::Response);
    assert_eq!(got.code, 0x2001);
    assert_eq!(got.transaction_id, 99);
    assert!(got.params.is_empty());
}

#[test]
fn decode_all_valid_kinds() {
    for (ty, want) in [
        (1u16, ContainerKind::Command),
        (2, ContainerKind::Data),
        (3, ContainerKind::Response),
        (4, ContainerKind::Event),
    ] {
        let mut b = [0u8; 12];
        b[4..6].copy_from_slice(&ty.to_le_bytes());
        let (c, _) = Container::decode_header(&b).unwrap();
        assert_eq!(c.kind, want);
    }
}

#[test]
fn decode_rejects_bad_container_type() {
    let mut b = [0u8; 12];
    b[4..6].copy_from_slice(&7u16.to_le_bytes());
    assert_eq!(Container::decode_header(&b), Err(ProtoError::BadContainerType(7)));
    let z = [0u8; 12];
    assert_eq!(Container::decode_header(&z), Err(ProtoError::BadContainerType(0)));
}

#[test]
fn decode_truncated_never_panics() {
    for n in 0..12usize {
        let buf = vec![0u8; n];
        match Container::decode_header(&buf) {
            Err(ProtoError::Truncated { need: 12, have }) => assert_eq!(have, n),
            other => panic!("expected Truncated, got {other:?}"),
        }
    }
}

#[test]
fn rc_name_known_codes() {
    assert_eq!(rc_name(0x2001), Some("OK"));
    assert_eq!(rc_name(0x2002), Some("GeneralError"));
    assert_eq!(rc_name(0x2009), Some("InvalidObjectHandle"));
    assert_eq!(rc_name(0x200C), Some("StoreFull"));
    assert_eq!(rc_name(0x2013), Some("StoreNotAvailable"));
    assert_eq!(rc_name(0x201E), Some("SessionAlreadyOpened"));
    assert_eq!(rc_name(0xA80A), Some("MTP_ObjectProp_Not_Supported"));
}

#[test]
fn rc_name_skips_0xa805_like_go() {
    assert_eq!(rc_name(0xA805), None);
}

#[test]
fn rc_name_unknown_is_none() {
    assert_eq!(rc_name(0x5000), None);
    assert_eq!(rc_name(0xFFFF), None);
}

#[test]
fn rcerror_display_matches_go() {
    assert_eq!(RcError(RespCode(0x200C)).to_string(), "StoreFull");
    assert_eq!(RcError(RespCode(0x2013)).to_string(), "StoreNotAvailable");
    assert_eq!(RcError(RespCode(0x2001)).to_string(), "OK");
    assert_eq!(RcError(RespCode(0x5000)).to_string(), "RetCode 5000");
    assert_eq!(RcError(RespCode(0xABCD)).to_string(), "RetCode abcd");
    assert_eq!(RcError(RespCode(0x0001)).to_string(), "RetCode 1");
}

#[test]
fn ffi_substring_match_survives() {
    let full = RcError(RespCode(0x200C)).to_string();
    let na = RcError(RespCode(0x2013)).to_string();
    assert!(full.contains("StoreFull"));
    assert!(na.contains("StoreNotAvailable"));
}
