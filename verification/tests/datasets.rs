use keel::datasets::{
    decode_prop_value, DeviceInfo, DevicePropDesc, ObjectInfo, ObjectPropDesc, PropForm, PropValue,
    StorageInfo, StringValue, Uint32Array, Uint64Value,
};
use keel::error::ProtoError;

/// The bytes of a PTP string, built independently of the codec.
fn ptp_str(s: &str) -> Vec<u8> {
    if s.is_empty() {
        return vec![0x00];
    }
    let units: Vec<u16> = s.encode_utf16().collect();
    let count = units.len() + 1;
    let mut v = vec![count as u8];
    for u in units {
        v.extend_from_slice(&u.to_le_bytes());
    }
    v.extend_from_slice(&[0x00, 0x00]);
    v
}

#[test]
fn device_info_decode_with_extension() {
    let mut bytes = Vec::new();
    bytes.extend_from_slice(&100u16.to_le_bytes());
    bytes.extend_from_slice(&6u32.to_le_bytes());
    bytes.extend_from_slice(&110u16.to_le_bytes());
    bytes.extend_from_slice(&ptp_str("microsoft.com: 1.0;"));
    bytes.extend_from_slice(&0u16.to_le_bytes());
    bytes.extend_from_slice(&2u32.to_le_bytes());
    bytes.extend_from_slice(&0x1001u16.to_le_bytes());
    bytes.extend_from_slice(&0x1002u16.to_le_bytes());
    bytes.extend_from_slice(&0u32.to_le_bytes());
    bytes.extend_from_slice(&1u32.to_le_bytes());
    bytes.extend_from_slice(&0x5001u16.to_le_bytes());
    bytes.extend_from_slice(&0u32.to_le_bytes());
    bytes.extend_from_slice(&1u32.to_le_bytes());
    bytes.extend_from_slice(&0x3001u16.to_le_bytes());
    bytes.extend_from_slice(&ptp_str("Nothing"));
    bytes.extend_from_slice(&ptp_str("A059"));
    bytes.extend_from_slice(&ptp_str("1.0"));
    bytes.extend_from_slice(&ptp_str("SER123"));

    let mut cur = &bytes[..];
    let di = DeviceInfo::decode(&mut cur).expect("decode");
    assert!(cur.is_empty(), "all bytes consumed");
    assert_eq!(di.standard_version, 100);
    assert_eq!(di.mtp_vendor_extension_id, 6);
    assert_eq!(di.mtp_version, 110);
    assert_eq!(di.mtp_extension, "microsoft.com: 1.0;");
    assert_eq!(di.functional_mode, 0);
    assert_eq!(di.operations_supported, vec![0x1001, 0x1002]);
    assert_eq!(di.events_supported, Vec::<u16>::new());
    assert_eq!(di.device_properties_supported, vec![0x5001]);
    assert_eq!(di.capture_formats, Vec::<u16>::new());
    assert_eq!(di.playback_formats, vec![0x3001]);
    assert_eq!(di.manufacturer, "Nothing");
    assert_eq!(di.model, "A059");
    assert_eq!(di.device_version, "1.0");
    assert_eq!(di.serial_number, "SER123");
}

#[test]
fn storage_info_decode() {
    let mut bytes = Vec::new();
    bytes.extend_from_slice(&0x0001u16.to_le_bytes());
    bytes.extend_from_slice(&0x0002u16.to_le_bytes());
    bytes.extend_from_slice(&0x0000u16.to_le_bytes());
    bytes.extend_from_slice(&(64u64 << 30).to_le_bytes());
    bytes.extend_from_slice(&(10u64 << 30).to_le_bytes());
    bytes.extend_from_slice(&0xFFFFFFFFu32.to_le_bytes());
    bytes.extend_from_slice(&ptp_str("Internal shared storage"));
    bytes.extend_from_slice(&ptp_str(""));

    let mut cur = &bytes[..];
    let si = StorageInfo::decode(&mut cur).expect("decode");
    assert!(cur.is_empty());
    assert_eq!(si.storage_type, 1);
    assert_eq!(si.filesystem_type, 2);
    assert_eq!(si.max_capability, 64u64 << 30);
    assert_eq!(si.free_space_in_bytes, 10u64 << 30);
    assert_eq!(si.free_space_in_images, 0xFFFFFFFF);
    assert_eq!(si.storage_description, "Internal shared storage");
    assert_eq!(si.volume_label, "");
    assert!(si.is_hierarchical());
    assert!(!si.is_dcf());
}

#[test]
fn object_info_roundtrip_no_dates() {
    let oi = ObjectInfo {
        storage_id: 0x00010001,
        object_format: 0x3000,
        protection_status: 0,
        compressed_size: 0xFFFFFFFF,
        thumb_format: 0,
        thumb_compressed_size: 0,
        thumb_pix_width: 0,
        thumb_pix_height: 0,
        image_pix_width: 0,
        image_pix_height: 0,
        image_bit_depth: 0,
        parent_object: 0xFFFFFFFF,
        association_type: 0,
        association_desc: 0,
        sequence_number: 0,
        filename: "movie.mkv".to_string(),
        capture_date: None,
        modification_date: None,
        keywords: String::new(),
    };
    let mut out = Vec::new();
    oi.encode(&mut out);
    let mut cur = &out[..];
    let decoded = ObjectInfo::decode(&mut cur).expect("decode");
    assert!(cur.is_empty(), "all bytes consumed");
    assert_eq!(decoded, oi);
}

#[test]
fn object_info_roundtrip_with_dates() {
    // Dates are seconds since the Unix epoch.
    let t: i64 = 1_700_000_000;
    let oi = ObjectInfo {
        storage_id: 0x00010001,
        object_format: 0x3801,
        protection_status: 0,
        compressed_size: 2048,
        filename: "IMG_0001.jpg".to_string(),
        capture_date: Some(t),
        modification_date: None,
        keywords: "vacation".to_string(),
        ..Default::default()
    };
    let mut out = Vec::new();
    oi.encode(&mut out);
    let mut cur = &out[..];
    let decoded = ObjectInfo::decode(&mut cur).expect("decode");
    assert!(cur.is_empty());
    assert_eq!(decoded.storage_id, oi.storage_id);
    assert_eq!(decoded.object_format, oi.object_format);
    assert_eq!(decoded.compressed_size, oi.compressed_size);
    assert_eq!(decoded.filename, oi.filename);
    assert_eq!(decoded.keywords, oi.keywords);
    assert!(decoded.capture_date.is_some());
    assert!(decoded.modification_date.is_none());
}

#[test]
fn truncated_input_errors_not_panics() {
    let bytes = [0x64u8, 0x00, 0x06];
    let mut cur = &bytes[..];
    let err = DeviceInfo::decode(&mut cur).unwrap_err();
    assert!(matches!(err, ProtoError::Truncated { .. }));
}

#[test]
fn absurd_array_count_errors_not_ooms() {
    let mut bytes = Vec::new();
    bytes.extend_from_slice(&0xFFFFFFFFu32.to_le_bytes());
    let mut cur = &bytes[..];
    let err = decode_prop_value(&mut cur, 0x4004).unwrap_err();
    assert!(matches!(err, ProtoError::Truncated { .. }));
}

#[test]
fn prop_value_uint128_decodes() {
    let mut bytes = Vec::new();
    let v: u128 = 0x0102_0304_0506_0708_090A_0B0C_0D0E_0F10;
    bytes.extend_from_slice(&v.to_le_bytes());
    let mut cur = &bytes[..];
    let pv = decode_prop_value(&mut cur, 0x000A).expect("no panic");
    assert_eq!(pv, PropValue::U128(v));
    assert!(cur.is_empty());
}

#[test]
fn prop_value_int128_decodes() {
    let mut bytes = Vec::new();
    let v: i128 = -12345678901234567890;
    bytes.extend_from_slice(&v.to_le_bytes());
    let mut cur = &bytes[..];
    let pv = decode_prop_value(&mut cur, 0x0009).expect("no panic");
    assert_eq!(pv, PropValue::I128(v));
}

#[test]
fn prop_value_uint32_array_decodes() {
    let mut bytes = Vec::new();
    bytes.extend_from_slice(&3u32.to_le_bytes());
    for x in [10u32, 20, 30] {
        bytes.extend_from_slice(&x.to_le_bytes());
    }
    let mut cur = &bytes[..];
    let pv = decode_prop_value(&mut cur, 0x4006).expect("no panic");
    assert_eq!(pv, PropValue::U32Array(vec![10, 20, 30]));
    assert!(cur.is_empty());
}

#[test]
fn prop_value_string_roundtrips() {
    let mut out = Vec::new();
    PropValue::Str("rename.txt".into()).encode(&mut out);
    let mut cur = &out[..];
    let pv = decode_prop_value(&mut cur, 0xFFFF).expect("decode");
    assert_eq!(pv, PropValue::Str("rename.txt".into()));
}

#[test]
fn device_prop_desc_range_form() {
    let mut bytes = Vec::new();
    bytes.extend_from_slice(&0x5001u16.to_le_bytes());
    bytes.extend_from_slice(&0x0002u16.to_le_bytes());
    bytes.push(0x00);
    bytes.push(50);
    bytes.push(80);
    bytes.push(0x01); // range form
    bytes.push(0);
    bytes.push(100);
    bytes.push(1);

    let mut cur = &bytes[..];
    let pd = DevicePropDesc::decode(&mut cur).expect("decode");
    assert!(cur.is_empty());
    assert_eq!(pd.device_property_code, 0x5001);
    assert_eq!(pd.data_type.0, 0x0002);
    assert_eq!(pd.get_set, 0);
    assert_eq!(pd.factory_default_value, PropValue::U8(50));
    assert_eq!(pd.current_value, PropValue::U8(80));
    assert_eq!(
        pd.form,
        PropForm::Range { minimum: PropValue::U8(0), maximum: PropValue::U8(100), step: PropValue::U8(1) }
    );
}

#[test]
fn object_prop_desc_enum_form() {
    let mut bytes = Vec::new();
    bytes.extend_from_slice(&0xDC01u16.to_le_bytes());
    bytes.extend_from_slice(&0x0004u16.to_le_bytes());
    bytes.push(0x01);
    bytes.extend_from_slice(&7u16.to_le_bytes());
    bytes.extend_from_slice(&0x0000_0001u32.to_le_bytes());
    bytes.push(0x02); // enumeration form
    bytes.extend_from_slice(&3u16.to_le_bytes());
    for x in [1u16, 2, 3] {
        bytes.extend_from_slice(&x.to_le_bytes());
    }

    let mut cur = &bytes[..];
    let pd = ObjectPropDesc::decode(&mut cur).expect("decode");
    assert!(cur.is_empty());
    assert_eq!(pd.object_property_code, 0xDC01);
    assert_eq!(pd.data_type.0, 0x0004);
    assert_eq!(pd.get_set, 1);
    assert_eq!(pd.factory_default_value, PropValue::U16(7));
    assert_eq!(pd.group_code, 1);
    assert_eq!(
        pd.form,
        PropForm::Enum { values: vec![PropValue::U16(1), PropValue::U16(2), PropValue::U16(3)] }
    );
}

#[test]
fn uint32_array_decode() {
    let mut bytes = Vec::new();
    bytes.extend_from_slice(&2u32.to_le_bytes());
    bytes.extend_from_slice(&0x00010001u32.to_le_bytes());
    bytes.extend_from_slice(&0x00020001u32.to_le_bytes());
    let mut cur = &bytes[..];
    let a = Uint32Array::decode(&mut cur).expect("decode");
    assert_eq!(a.values, vec![0x00010001, 0x00020001]);
}

#[test]
fn uint64_value_roundtrip() {
    let v = Uint64Value { value: 5_000_000_000 };
    let mut out = Vec::new();
    v.encode(&mut out);
    let mut cur = &out[..];
    assert_eq!(Uint64Value::decode(&mut cur).expect("decode"), v);
}

#[test]
fn string_value_roundtrip() {
    let v = StringValue { value: "photo.png".into() };
    let mut out = Vec::new();
    v.encode(&mut out);
    let mut cur = &out[..];
    assert_eq!(StringValue::decode(&mut cur).expect("decode"), v);
}

#[test]
fn prop_value_every_type_roundtrips() {
    let cases: Vec<(PropValue, u16)> = vec![
        (PropValue::I8(-5), 0x0001),
        (PropValue::U8(250), 0x0002),
        (PropValue::I16(-30000), 0x0003),
        (PropValue::U16(65000), 0x0004),
        (PropValue::I32(i32::MIN), 0x0005),
        (PropValue::U32(u32::MAX), 0x0006),
        (PropValue::I64(-1), 0x0007),
        (PropValue::U64(1 << 60), 0x0008),
        (PropValue::I128(i128::MIN + 7), 0x0009),
        (PropValue::U128(u128::MAX - 3), 0x000A),
        (PropValue::Str("Pixel 7 \u{1F6F3}".to_string()), 0xFFFF),
        (PropValue::I8Array(vec![-1, 0, 1]), 0x4001),
        (PropValue::U8Array(vec![]), 0x4002),
        (PropValue::I16Array(vec![-2, 2]), 0x4003),
        (PropValue::U16Array(vec![1, 0xFFFF]), 0x4004),
        (PropValue::I32Array(vec![-70000]), 0x4005),
        (PropValue::U32Array(vec![0, 1, 0xFFFF_FFFF]), 0x4006),
        (PropValue::I64Array(vec![i64::MAX, i64::MIN]), 0x4007),
        (PropValue::U64Array(vec![42]), 0x4008),
        (PropValue::I128Array(vec![-1]), 0x4009),
        (PropValue::U128Array(vec![u128::MAX]), 0x400A),
    ];
    for (v, sel) in cases {
        let mut bytes = Vec::new();
        v.encode(&mut bytes);
        bytes.extend_from_slice(&[0xAB, 0xCD]);
        let mut cur: &[u8] = &bytes;
        let back = decode_prop_value(&mut cur, sel).unwrap();
        assert_eq!(back, v, "selector {sel:#06x}");
        assert_eq!(cur, &[0xAB, 0xCD]);
    }
}
