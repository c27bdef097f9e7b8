use keel::ffi::json_text::lossy_text;
use keel::ffi::progress::{progress_json, TransferProgressInfo, TransferSizeInfo};
use keel::ffi::sampler::{preprocess_payload, Sample, SampleSlot};
use keel::ffi::device_state::{
    dispose_export, fetch_device_info_finish, fetch_storages_failure, verify_mtp_session_finish,
    verify_mtp_session_start, DeviceState, VerifyStep,
};
use keel::codec::decode_datetime;
use keel::datasets::DeviceInfo;
use keel::ffi::error_type as et;
use keel::ffi::errors::{allow_storage_access_sentinel, exclusive_access_message, process_error, KernelError, VfsErrorKind};
use keel::ffi::json::{
    base64_encode, delete_file_json, device_info_json, dispose_json, download_preprocess_json, error_json,
    file_exists_json, format_date_added, initialize_json, make_directory_json, rename_file_json, storages_json,
    thumbnail_json, transfer_done_json, upload_preprocess_json, walk_json, FileExistsData, ListedFile,
    MtpDeviceInfo, StorageData, StorageInfo,
};
use keel::mtp::UsbInfo;

fn ms_of(text: &str) -> i64 {
    decode_datetime(text).unwrap() * 1000
}

#[test]
fn bool_success_builders() {
    for j in [make_directory_json(), delete_file_json(), rename_file_json(), transfer_done_json(), dispose_json()] {
        assert_eq!(j, r#"{"errorType":"","error":"","data":true}"#);
    }
}

#[test]
fn error_envelope_data_is_null() {
    assert_eq!(
        error_json("ErrorInvalidPath", "file not found: /x".to_string()),
        r#"{"errorType":"ErrorInvalidPath","error":"file not found: /x","data":null}"#
    );
    assert_eq!(
        error_json("ErrorGeneral", "boom".to_string()),
        r#"{"errorType":"ErrorGeneral","error":"boom","data":null}"#
    );
}

#[test]
fn storages_json_matches_golden_0003() {
    let s = StorageData {
        sid: 65537,
        info: StorageInfo {
            storage_type: 3,
            filesystem_type: 2,
            access_capability: 0,
            max_capability: 241419628544,
            free_space_in_bytes: 191037419520,
            free_space_in_images: 1073741824,
            storage_description: "Internal shared storage".to_string(),
            volume_label: String::new(),
        },
    };
    assert_eq!(
        storages_json(std::slice::from_ref(&s)),
        r#"{"errorType":"","error":"","data":[{"Sid":65537,"Info":{"StorageType":3,"FilesystemType":2,"AccessCapability":0,"MaxCapability":241419628544,"FreeSpaceInBytes":191037419520,"FreeSpaceInImages":1073741824,"StorageDescription":"Internal shared storage","VolumeLabel":""}}]}"#
    );
}

#[test]
fn storages_json_empty_is_bracket_not_null() {
    assert_eq!(storages_json(&[]), r#"{"errorType":"","error":"","data":[]}"#);
}

#[test]
fn file_exists_json_pairs_and_nulls_empty() {
    assert_eq!(
        file_exists_json(
            &[true, false],
            &[
                "/Download/keel-golden-test".to_string(),
                "/Download/keel-golden-test/definitely-missing.bin".to_string(),
            ],
        ),
        r#"{"errorType":"","error":"","data":[{"fullpath":"/Download/keel-golden-test","exists":true},{"fullpath":"/Download/keel-golden-test/definitely-missing.bin","exists":false}]}"#
    );
    assert_eq!(file_exists_json(&[], &[]), r#"{"errorType":"","error":"","data":null}"#);
}

#[test]
fn walk_json_maps_domain_and_formats_date() {
    let f = ListedFile {
        size: 0,
        is_dir: true,
        mod_time_ms: Some(ms_of("20251026T144911")),
        name: "Pictures".to_string(),
        full_path: "/Pictures".to_string(),
        parent_path: "/".to_string(),
        extension: String::new(),
        parent_id: 0,
        object_id: 7,
    };
    assert_eq!(
        walk_json(std::slice::from_ref(&f)),
        r#"{"errorType":"","error":"","data":[{"size":0,"isFolder":true,"dateAdded":"2025-10-26T14:49:11.000Z","name":"Pictures","path":"/Pictures","parentPath":"/","extension":"","parentId":0,"objectId":7}]}"#
    );
}

#[test]
fn walk_json_empty_is_null() {
    assert_eq!(walk_json(&[]), r#"{"errorType":"","error":"","data":null}"#);
}

#[test]
fn format_date_added_utc_civil_and_zero() {
    let t = ms_of("20251026T144911");
    assert_eq!(format_date_added(Some(t)), "2025-10-26T14:49:11.000Z");
    assert_eq!(format_date_added(Some(0)), "1970-01-01T00:00:00.000Z");
    assert_eq!(format_date_added(None), "0001-01-01T00:00:00.000Z");
}

#[test]
fn format_date_added_keeps_milliseconds() {
    assert_eq!(format_date_added(Some(1_234)), "1970-01-01T00:00:01.234Z");
    assert_eq!(format_date_added(Some(951_782_400_007)), "2000-02-29T00:00:00.007Z");
    assert_eq!(format_date_added(Some(-1)), "0001-01-01T00:00:00.000Z");
}

#[test]
fn mtp_device_info_empty_array_is_bracket_not_null() {
    let d = MtpDeviceInfo {
        standard_version: 100,
        mtp_vendor_extension_id: 6,
        mtp_version: 100,
        mtp_extension: "microsoft.com: 1.0; android.com: 1.0;".to_string(),
        functional_mode: 0,
        operations_supported: vec![4097, 4098],
        events_supported: vec![16386],
        device_properties_supported: vec![54273],
        capture_formats: vec![],
        playback_formats: vec![12288],
        manufacturer: "Nothing".to_string(),
        model: "A059".to_string(),
        device_version: "1.0".to_string(),
        serial_number: "2B6DC722".to_string(),
    };
    let s = d.to_json();
    assert!(s.contains(r#""CaptureFormats":[]"#), "{s}");
    assert!(s.contains(r#""StandardVersion":100"#), "{s}");
}

#[test]
fn initialize_json_matches_full_golden_0001() {
    let golden: String = [
        r#"{"errorType":"","error":"","data":{"mtpDeviceInfo":{"StandardVersion":100,"MTPVendorExtensionID":6,"#,
        r#""MTPVersion":100,"MTPExtension":"microsoft.com: 1.0; android.com: 1.0;","FunctionalMode":0,"#,
        r#""OperationsSupported":[4097,4098,4099,4100,4101,4102,4103,4104,4105,4106,4107,4108,4109,4112,4116,"#,
        r#"4117,4118,4119,4121,4122,4123,38913,38914,38915,38916,38917,38337,38338,38339,38340,38341],"#,
        r#""EventsSupported":[16386,16387,16388,16389,16390,16391],"#,
        r#""DevicePropertiesSupported":[54273,54274,20483,20481,54279,54278],"CaptureFormats":[],"#,
        r#""PlaybackFormats":[12288,12289,12292,12293,12296,12297,12299,14337,14338,14340,14343,14344,14347,"#,
        r#"14349,47361,47362,47363,47490,47491,47492,47621,47632,47633,47636,47746,47366,14353,14354],"#,
        r#""Manufacturer":"Nothing","Model":"A059","DeviceVersion":"1.0","#,
        r#""SerialNumber":"2B6DC722089C681979BA7660DCE9A7D5"},"usbDeviceInfo":{"IdVendor":6353,"#,
        r#""IdProduct":20193,"Device":1537,"Manufacturer":"Nothing","Product":"VOLCANO-QRD_SN:88BB8A47","#,
        r#""SerialNumber":"00161358V000616"}}}"#,
    ]
    .concat();
    let dev = DeviceInfo {
        standard_version: 100,
        mtp_vendor_extension_id: 6,
        mtp_version: 100,
        mtp_extension: "microsoft.com: 1.0; android.com: 1.0;".to_string(),
        functional_mode: 0,
        operations_supported: vec![
            4097, 4098, 4099, 4100, 4101, 4102, 4103, 4104, 4105, 4106, 4107, 4108, 4109, 4112, 4116, 4117, 4118,
            4119, 4121, 4122, 4123, 38913, 38914, 38915, 38916, 38917, 38337, 38338, 38339, 38340, 38341,
        ],
        events_supported: vec![16386, 16387, 16388, 16389, 16390, 16391],
        device_properties_supported: vec![54273, 54274, 20483, 20481, 54279, 54278],
        capture_formats: vec![],
        playback_formats: vec![
            12288, 12289, 12292, 12293, 12296, 12297, 12299, 14337, 14338, 14340, 14343, 14344, 14347, 14349,
            47361, 47362, 47363, 47490, 47491, 47492, 47621, 47632, 47633, 47636, 47746, 47366, 14353, 14354,
        ],
        manufacturer: "Nothing".to_string(),
        model: "A059".to_string(),
        device_version: "1.0".to_string(),
        serial_number: "2B6DC722089C681979BA7660DCE9A7D5".to_string(),
    };
    let usb = UsbInfo {
        vendor_id: 6353,
        product_id: 20193,
        bcd_device: 1537,
        manufacturer: "Nothing".to_string(),
        product: "VOLCANO-QRD_SN:88BB8A47".to_string(),
        serial: "00161358V000616".to_string(),
    };
    assert_eq!(initialize_json(&dev, &usb), golden);
    assert_eq!(device_info_json(&dev, &usb), golden);
}

#[test]
fn preprocess_builders_casing() {
    assert_eq!(
        upload_preprocess_json("/tmp/keel-golden-src/sub/nested.bin", "nested.bin", 300000),
        r#"{"errorType":"","error":"","data":{"fullPath":"/tmp/keel-golden-src/sub/nested.bin","name":"nested.bin","size":300000}}"#
    );
    assert_eq!(
        download_preprocess_json("/tmp/x", "x", 5),
        r#"{"errorType":"","error":"","data":{"fullPath":"/tmp/x","name":"x","size":5}}"#
    );
}

#[test]
fn no_html_escaping_of_special_chars() {
    let d = FileExistsData { fullpath: "/a<b>&c".to_string(), exists: true };
    assert_eq!(d.to_json(), r#"{"fullpath":"/a<b>&c","exists":true}"#);
}

#[test]
fn json_strings_escape_quotes_and_controls() {
    let d = FileExistsData { fullpath: "a\"b\\c\nd\u{1}é🛳".to_string(), exists: false };
    assert_eq!(d.to_json(), "{\"fullpath\":\"a\\\"b\\\\c\\nd\\u0001é🛳\",\"exists\":false}");
}

#[test]
fn base64_known_values() {
    assert_eq!(base64_encode(b""), "");
    assert_eq!(base64_encode(b"f"), "Zg==");
    assert_eq!(base64_encode(b"fo"), "Zm8=");
    assert_eq!(base64_encode(b"foo"), "Zm9v");
    assert_eq!(base64_encode(b"foobar"), "Zm9vYmFy");
    assert_eq!(base64_encode(&[0xff, 0xfe, 0xfd]), "//79");
}

#[test]
fn thumbnail_json_base64_or_null() {
    assert_eq!(thumbnail_json(Some(b"Man")), r#"{"errorType":"","error":"","data":"TWFu"}"#);
    assert_eq!(thumbnail_json(None), r#"{"errorType":"","error":"","data":null}"#);
}

fn vfs(k: VfsErrorKind, m: &str) -> KernelError {
    KernelError::Vfs(k, m.to_string())
}

fn msg(m: &str) -> KernelError {
    KernelError::Message(m.to_string())
}

#[test]
fn typed_vfs_variants_map_to_canonical_types() {
    let cases: Vec<(KernelError, &str)> = vec![
        (vfs(VfsErrorKind::MtpDetectFailed, "x"), et::MTP_DETECT_FAILED),
        (vfs(VfsErrorKind::Configure, "OK"), et::DEVICE_SETUP),
        (vfs(VfsErrorKind::DeviceInfo, "OK"), et::DEVICE_INFO),
        (vfs(VfsErrorKind::StorageInfo, "OK"), et::STORAGE_INFO),
        (vfs(VfsErrorKind::NoStorage, "no storage"), et::NO_STORAGE),
        (vfs(VfsErrorKind::ListDirectory, "OK"), et::LIST_DIRECTORY),
        (vfs(VfsErrorKind::FileNotFound, "nf"), et::FILE_NOT_FOUND),
        (vfs(VfsErrorKind::FilePermission, "perm"), et::FILE_PERMISSION),
        (vfs(VfsErrorKind::LocalFile, "lf"), et::LOCAL_FILE_READ),
        (vfs(VfsErrorKind::InvalidPath, "ip"), et::INVALID_PATH),
        (vfs(VfsErrorKind::FileTransfer, "ft"), et::FILE_TRANSFER),
        (vfs(VfsErrorKind::FileObject, "OK"), et::FILE_OBJECT_READ),
        (vfs(VfsErrorKind::SendObject, "OK"), et::SEND_OBJECT),
    ];
    for (err, want) in cases {
        let (got, _) = process_error(&err);
        assert_eq!(got, want, "for {err:?}");
    }
}

#[test]
fn fabricated_string_sentinels() {
    assert_eq!(process_error(&msg("ErrorMtpDetectFailed")).0, et::MTP_DETECT_FAILED);
    assert_eq!(process_error(&msg("ErrorMtpLockExists")).0, et::MTP_LOCK_EXISTS);
    assert_eq!(process_error(&msg("ErrorDeviceChanged")).0, et::DEVICE_CHANGED);
    let (t, m) = process_error(&msg("some random failure"));
    assert_eq!(t, et::GENERAL);
    assert_eq!(m, "some random failure");
}

#[test]
fn cancellation_by_type_and_by_substring() {
    let (t, m) = process_error(&vfs(VfsErrorKind::Cancelled, "transfer cancelled by user"));
    assert_eq!(t, et::TRANSFER_CANCELLED);
    assert_eq!(m, "transfer cancelled by user");
    let (t2, _) = process_error(&msg("upload failed: transfer cancelled by user"));
    assert_eq!(t2, et::TRANSFER_CANCELLED);
}

#[test]
fn bare_rc_0x2009_maps_to_storage_full_bug() {
    let (t, m) = process_error(&vfs(VfsErrorKind::Mtp(Some(0x2009)), "InvalidObjectHandle"));
    assert_eq!(t, et::STORAGE_FULL);
    assert_eq!(m, "InvalidObjectHandle");
}

#[test]
fn bare_rc_other_code_falls_through_then_substring() {
    assert_eq!(process_error(&vfs(VfsErrorKind::Mtp(Some(0x200C)), "StoreFull")).0, et::STORAGE_FULL);
    assert_eq!(process_error(&vfs(VfsErrorKind::Mtp(Some(0x2013)), "StoreNotAvailable")).0, et::NO_STORAGE);
    let (t3, m3) = process_error(&vfs(VfsErrorKind::Mtp(Some(0x2003)), "SessionNotOpen"));
    assert_eq!(t3, et::GENERAL);
    assert_eq!(m3, "SessionNotOpen");
}

#[test]
fn allow_storage_access_override_wins() {
    let e = allow_storage_access_sentinel("EOF");
    let (t, m) = process_error(&msg(&e));
    assert_eq!(t, et::ALLOW_STORAGE_ACCESS);
    assert_eq!(m, e);
}

#[test]
fn device_not_open_maps_to_device_locked() {
    let (t, _) = process_error(&vfs(VfsErrorKind::Mtp(None), "mtp: device is not open"));
    assert_eq!(t, et::DEVICE_LOCKED);
}

#[test]
fn libusb_no_device_only_retags_device_info() {
    let text = "transport: device gone (LIBUSB_ERROR_NO_DEVICE)";
    assert_eq!(process_error(&vfs(VfsErrorKind::DeviceInfo, text)).0, et::DEVICE_CHANGED);
    assert_eq!(process_error(&vfs(VfsErrorKind::Mtp(None), text)).0, et::GENERAL);
}

#[test]
fn more_than_one_device_override() {
    let e = vfs(VfsErrorKind::MtpDetectFailed, "select: more than 1 device found");
    assert_eq!(process_error(&e).0, et::MULTIPLE_DEVICE);
}

#[test]
fn exclusive_access_maps_to_device_setup_with_owner() {
    let m1 = exclusive_access_message(Some("ptpcamerad"));
    let (t, m) = process_error(&vfs(VfsErrorKind::ExclusiveAccess(Some("ptpcamerad".into())), &m1));
    assert_eq!(t, et::DEVICE_SETUP);
    assert!(m.contains("ptpcamerad"), "message names the owner: {m}");
    assert!(m.contains("Quit"), "{m}");
    let m2 = exclusive_access_message(None);
    let (t2, _) = process_error(&vfs(VfsErrorKind::ExclusiveAccess(None), &m2));
    assert_eq!(t2, et::DEVICE_SETUP);
}

#[test]
fn configure_error_is_device_setup() {
    let e = vfs(VfsErrorKind::Configure, "mtp: sync error: desync");
    assert_eq!(process_error(&e).0, et::DEVICE_SETUP);
}

#[test]
fn lossy_number_texts() {
    assert_eq!(lossy_text(false, 33_333_336), "33.333336");
    assert_eq!(lossy_text(false, 66_666_672), "66.666672");
    assert_eq!(lossy_text(false, 83_330_971), "83.330971");
    assert_eq!(lossy_text(false, 100_000_000), "100");
    assert_eq!(lossy_text(false, 0), "0");
    assert_eq!(lossy_text(false, 9_630_000), "9.63");
    assert_eq!(lossy_text(false, 1_500_000), "1.5");
    assert_eq!(lossy_text(false, 5), "0.000005");
    assert_eq!(lossy_text(true, 9_630_000), "-9.63");
}

fn scaled(x: f64) -> (bool, u64) {
    let neg = x < 0.0;
    let mag = if neg { -x } else { x };
    (neg, (mag * 1_000_000.0 + 0.5) as u64)
}

#[test]
fn lossy_floats_match_golden() {
    let f32_text = |v: f32| {
        let (n, s) = scaled(v as f64);
        lossy_text(n, s)
    };
    assert_eq!(f32_text(33.333336), "33.333336");
    assert_eq!(f32_text(66.666672), "66.666672");
    assert_eq!(f32_text(83.330971), "83.330971");
    assert_eq!(f32_text(83.333809), "83.333809");
    assert_eq!(f32_text(100.0), "100");
    assert_eq!(f32_text(0.0), "0");
    let (n, s) = scaled(9.63);
    assert_eq!(lossy_text(n, s), "9.63");
    let p = |a: f32, b: f32| (a / b) * 100.0_f32;
    assert_eq!(f32_text(p(1.0, 3.0)), "33.333336");
    assert_eq!(f32_text(p(2.0, 3.0)), "66.666672");
    assert_eq!(f32_text(p(1_500_000.0, 1_800_051.0)), "83.330971");
    assert_eq!(f32_text(p(1_500_051.0, 1_800_051.0)), "83.333809");
}

#[test]
fn progress_json_matches_golden_0011_shape() {
    let p = TransferProgressInfo {
        full_path: "/Download/keel-golden-test/keel-golden-src/note-🛳️.txt".to_string(),
        name: "note-🛳️.txt".to_string(),
        elapsed_time: 1234,
        speed: "9.63".to_string(),
        total_files: 3,
        total_directories: 2,
        files_sent: 1,
        files_sent_progress: "33.333336".to_string(),
        active_file_size: TransferSizeInfo { total: 1500000, sent: 1500000, progress: "100".to_string() },
        bulk_file_size: TransferSizeInfo { total: 1800051, sent: 1500000, progress: "83.330971".to_string() },
        status: "InProgress".to_string(),
    };
    let out = progress_json(&p);
    assert!(out.starts_with(
        r#"{"errorType":"","error":"","data":{"fullPath":"/Download/keel-golden-test/keel-golden-src/note-🛳️.txt","name":"note-🛳️.txt","elapsedTime":"#
    ), "{out}");
    assert!(out.ends_with(
        r#","speed":9.63,"totalFiles":3,"totalDirectories":2,"filesSent":1,"filesSentProgress":33.333336,"activeFileSize":{"total":1500000,"sent":1500000,"progress":100},"bulkFileSize":{"total":1800051,"sent":1500000,"progress":83.330971},"status":"InProgress"}}"#
    ), "{out}");
}

#[test]
fn unmarshalling_sentinel_is_verbatim() {
    let msg = keel::ffi::errors::unmarshalling_error("Walk", "key must be a string at line 1 column 2");
    assert!(msg.starts_with("error occured while Unmarshalling Walk input data "));
    assert!(msg.ends_with(": "));
}

#[test]
fn device_state_verification_and_swaps() {
    let info = |serial: &str| DeviceInfo { serial_number: serial.to_string(), ..DeviceInfo::default() };
    let mut st = DeviceState::new();
    match verify_mtp_session_start(&st, false) {
        VerifyStep::Fail(KernelError::Message(m)) => assert_eq!(m, "ErrorMtpDetectFailed"),
        _ => panic!("no device must fail"),
    }
    st.has_device = true;
    assert!(matches!(verify_mtp_session_start(&st, false), VerifyStep::Proceed));
    assert!(fetch_device_info_finish(&mut st, Ok(info("A"))).is_ok());
    assert!(matches!(verify_mtp_session_start(&st, true), VerifyStep::Proceed));
    assert!(matches!(verify_mtp_session_start(&st, false), VerifyStep::FetchDeviceInfo));
    assert!(verify_mtp_session_finish(&mut st, Ok(info("A"))).is_ok());
    match verify_mtp_session_finish(&mut st, Ok(info("B"))) {
        Err(KernelError::Message(m)) => assert_eq!(m, "ErrorDeviceChanged"),
        _ => panic!("a new serial is a changed device"),
    }
    assert_eq!(st.device_info.as_ref().unwrap().serial_number, "B");
    assert!(st.has_device);
    let e = fetch_storages_failure(&mut st, vfs(VfsErrorKind::StorageInfo, "read: EOF"));
    assert_eq!(e, KernelError::Message("error allow storage access. read: EOF".to_string()));
    assert!(!st.has_device);
    st.has_device = true;
    let e = fetch_storages_failure(&mut st, vfs(VfsErrorKind::StorageInfo, "timeout"));
    assert_eq!(e, vfs(VfsErrorKind::StorageInfo, "timeout"));
    assert!(st.has_device);
    let gone = vfs(VfsErrorKind::DeviceInfo, "gone");
    assert_eq!(verify_mtp_session_finish(&mut st, Err(gone.clone())), Err(gone));
    assert!(!st.has_device && st.device_info.is_none());
    st.has_device = true;
    assert!(fetch_device_info_finish(&mut st, Err(msg("x"))).is_err());
    assert!(st.has_device && st.device_info.is_none());
    dispose_export(&mut st);
    assert!(!st.has_device && st.device_info.is_none());
}

#[test]
fn fast_transfer_gets_terminal_progress_before_done() {
    let mut slot: SampleSlot<u32> = SampleSlot::new();
    assert!(slot.tick().is_none());
    slot.set(Sample::UploadPreprocess { full_path: "/a/b".to_string(), name: "b".to_string(), size: 5 });
    match slot.tick() {
        Some(s) => assert_eq!(
            preprocess_payload(s),
            Some(r#"{"errorType":"","error":"","data":{"fullPath":"/a/b","name":"b","size":5}}"#.to_string())
        ),
        None => panic!("a running poller re-sends the slot"),
    }
    slot.set(Sample::Progress(7));
    assert!(matches!(slot.tick(), Some(Sample::Progress(7))));
    assert!(matches!(slot.tick(), Some(Sample::Progress(7))));
    assert_eq!(
        slot.stop_and_take_latest(),
        Some(&7),
        "the final progress snapshot must be delivered even before the first sampler tick"
    );
    assert!(slot.tick().is_none());
    let mut err_path: SampleSlot<u32> = SampleSlot::new();
    err_path.set(Sample::Progress(1));
    err_path.stop();
    assert!(err_path.tick().is_none());
}
