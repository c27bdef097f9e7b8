use keel::usb::{
    classify_open_failure, OpenFailureKind, align_to_packet_size, clean_owner, is_mtp_interface_name, mtp_endpoints, plausible, plugin_guidance, Blockers,
    DiscoverError, EndpointSummary, InterfaceSummary, OpenError, TransferKind,
};

#[test]
fn extracts_process_name_from_iouserclientcreator() {
    assert_eq!(clean_owner("pid 431, ptpcamerad").as_deref(), Some("ptpcamerad"));
}

#[test]
fn passes_through_plain_owner_string() {
    assert_eq!(clean_owner("Image Capture").as_deref(), Some("Image Capture"));
}

#[test]
fn empty_is_none() {
    assert_eq!(clean_owner("   "), None);
}

#[test]
fn does_not_split_names_containing_comma_space() {
    assert_eq!(clean_owner("Adobe, Inc. Helper").as_deref(), Some("Adobe, Inc. Helper"));
}

#[test]
fn clean_owner_trims_and_keeps_pid_form_without_name() {
    assert_eq!(clean_owner("  pid 12,   Photos  ").as_deref(), Some("Photos"));
    assert_eq!(clean_owner("pid 12, ").as_deref(), Some("pid 12,"));
}

#[test]
fn align_rounds_up_to_whole_packets() {
    assert_eq!(align_to_packet_size(1000, 512), 1024);
    assert_eq!(align_to_packet_size(1024, 512), 1024);
    assert_eq!(align_to_packet_size(1, 64), 64);
    assert_eq!(align_to_packet_size(0, 512), 512);
    assert_eq!(align_to_packet_size(0, 0), 1);
    assert_eq!(align_to_packet_size(7, 0), 7);
}

#[test]
fn blockers_fold_into_one_outcome() {
    let b = Blockers::new();
    assert_eq!(b.outcome(0), Err(DiscoverError::NoDevice));
    assert_eq!(b.outcome(1), Ok(()));
    assert_eq!(b.outcome(3), Err(DiscoverError::MultipleDevices(3)));

    let mut b = Blockers::new();
    b.record(OpenError::Other("io".to_string()));
    b.record(OpenError::Other("later".to_string()));
    assert_eq!(b.outcome(0), Err(DiscoverError::Other("io".to_string())));
    b.record(OpenError::PlugIn("0xe00002c7".to_string()));
    assert_eq!(b.outcome(0), Err(DiscoverError::Access(plugin_guidance("0xe00002c7"))));
    b.record(OpenError::Exclusive { owner: None });
    b.record(OpenError::Exclusive { owner: Some("ptpcamerad".to_string()) });
    b.record(OpenError::Exclusive { owner: Some("other".to_string()) });
    b.record(OpenError::Gone);
    assert_eq!(
        b.outcome(0),
        Err(DiscoverError::ExclusiveAccess { owner: Some("ptpcamerad".to_string()) })
    );
}

#[test]
fn discover_error_texts() {
    assert_eq!(DiscoverError::NoDevice.to_string(), "no MTP devices found");
    assert_eq!(
        DiscoverError::MultipleDevices(2).to_string(),
        "mtp: more than 1 device: found 2 MTP candidates"
    );
    assert!(DiscoverError::ExclusiveAccess { owner: Some("Photos".to_string()) }
        .to_string()
        .contains("(Photos)"));
}

#[test]
fn plausibility_of_devices() {
    let none: Vec<InterfaceSummary> = vec![];
    assert!(!plausible(0x09, &none));
    assert!(plausible(0x00, &none));
    assert!(plausible(0xFF, &none));
    assert!(!plausible(0x02, &none));
    let named = vec![
        InterfaceSummary { class: 0x02, name: None },
        InterfaceSummary { class: 0x08, name: Some("Android mtp".to_string()) },
    ];
    assert!(plausible(0xEF, &named));
    let still = vec![InterfaceSummary { class: 0x06, name: None }];
    assert!(plausible(0xEF, &still));
    let plain = vec![InterfaceSummary { class: 0x08, name: Some("storage".to_string()) }];
    assert!(!plausible(0xEF, &plain));
}

#[test]
fn endpoint_shape() {
    let ep = |address: u8, is_in: bool, kind: TransferKind| EndpointSummary { address, is_in, kind };
    let good = [ep(0x81, true, TransferKind::Bulk), ep(0x01, false, TransferKind::Bulk), ep(0x82, true, TransferKind::Interrupt)];
    assert_eq!(mtp_endpoints(&good), Some((0x81, 0x01, 0x82)));
    let missing = [ep(0x81, true, TransferKind::Bulk), ep(0x82, true, TransferKind::Bulk), ep(0x83, true, TransferKind::Interrupt)];
    assert_eq!(mtp_endpoints(&missing), None);
    assert_eq!(mtp_endpoints(&good[..2]), None);
}

#[test]
fn interface_name_test() {
    assert!(is_mtp_interface_name("MTP"));
    assert!(!is_mtp_interface_name("storage"));
}

#[test]
fn open_failures_are_classified() {
    assert_eq!(
        classify_open_failure(OpenFailureKind::Busy, "busy".to_string(), Some("ptpcamerad".to_string())),
        OpenError::Exclusive { owner: Some("ptpcamerad".to_string()) }
    );
    assert_eq!(classify_open_failure(OpenFailureKind::NotFound, "x".to_string(), None), OpenError::Gone);
    assert_eq!(classify_open_failure(OpenFailureKind::Disconnected, "x".to_string(), None), OpenError::Gone);
    let m = "failed to create IOKit PlugInInterface for device".to_string();
    assert_eq!(classify_open_failure(OpenFailureKind::Other, m.clone(), None), OpenError::PlugIn(m));
    assert_eq!(
        classify_open_failure(OpenFailureKind::Other, "io".to_string(), None),
        OpenError::Other("io".to_string())
    );
}
