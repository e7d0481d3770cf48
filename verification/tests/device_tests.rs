use ctap_common::ctap_driverkit;
use ctap_common::ctap_uhid::{
    create2_event, destroy_event, input2_event, parse_output_event, UhidOutput, UHID_EVENT_SIZE,
};
use ctap_common::ctap_vhf;
use ctap_common::ctap_virtual_device::{
    is_virtual_device_available, Platform, PlatformProbe, FIDO_HID_REPORT_DESCRIPTOR,
};

#[test]
fn create2_event_layout() {
    let e = create2_event();
    assert_eq!(e.len(), UHID_EVENT_SIZE);
    assert_eq!(e[0..4], [11, 0, 0, 0]);
    assert_eq!(&e[4..32], b"RustDesk Virtual FIDO Device");
    assert_eq!(e[32], 0);
    assert_eq!(e[260..262], [34, 0]);
    assert_eq!(e[262..264], [3, 0]);
    assert_eq!(e[264..268], [0x09, 0x12, 0, 0]);
    assert_eq!(e[268..272], [0xD0, 0xF1, 0, 0]);
    assert_eq!(e[272..276], [0x00, 0x01, 0, 0]);
    assert_eq!(e[276..280], [0, 0, 0, 0]);
    assert_eq!(e[280..314], FIDO_HID_REPORT_DESCRIPTOR);
    assert!(e[314..].iter().all(|b| *b == 0));
}

#[test]
fn destroy_and_input_events() {
    let d = destroy_event();
    assert_eq!(d.len(), UHID_EVENT_SIZE);
    assert_eq!(d[0..4], [1, 0, 0, 0]);
    assert!(d[4..].iter().all(|b| *b == 0));
    let mut report = [0u8; 64];
    for (i, b) in report.iter_mut().enumerate() {
        *b = i as u8 + 1;
    }
    let e = input2_event(&report);
    assert_eq!(e[0..4], [12, 0, 0, 0]);
    assert_eq!(e[4..6], [64, 0]);
    assert_eq!(e[6..70], report);
    assert!(e[70..].iter().all(|b| *b == 0));
}

fn output_event(size: u16, data: &[u8]) -> Vec<u8> {
    let mut e = vec![0u8; UHID_EVENT_SIZE];
    e[0] = 6;
    e[4..4 + data.len()].copy_from_slice(data);
    e[4100..4102].copy_from_slice(&size.to_le_bytes());
    e
}

#[test]
fn output_events_are_decoded() {
    let data: Vec<u8> = (1..=65).collect();
    match parse_output_event(&output_event(64, &data), UHID_EVENT_SIZE) {
        UhidOutput::Report(r) => assert_eq!(r[..], data[0..64]),
        _ => panic!("expected a report"),
    }
    let mut with_id = vec![0u8];
    with_id.extend(1..=64u8);
    match parse_output_event(&output_event(65, &with_id), UHID_EVENT_SIZE) {
        UhidOutput::Report(r) => assert_eq!(r[..], with_id[1..65]),
        _ => panic!("expected a report"),
    }
    assert!(matches!(parse_output_event(&output_event(10, &data), UHID_EVENT_SIZE), UhidOutput::TooShort(10)));
    assert!(matches!(parse_output_event(&output_event(64, &data), 3), UhidOutput::Skip));
    let mut start = output_event(64, &data);
    start[0] = 2;
    assert!(matches!(parse_output_event(&start, UHID_EVENT_SIZE), UhidOutput::Skip));
}

fn probe(uhid: bool, vhf: bool, driverkit: bool) -> PlatformProbe {
    PlatformProbe { uhid_node_exists: uhid, vhf_driver_installed: vhf, driverkit_extension_approved: driverkit }
}

#[test]
fn virtual_device_availability() {
    assert!(is_virtual_device_available(Platform::Linux, probe(true, false, false)));
    assert!(!is_virtual_device_available(Platform::Linux, probe(false, true, true)));
    assert!(is_virtual_device_available(Platform::Windows, probe(false, true, false)));
    assert!(!is_virtual_device_available(Platform::Windows, probe(true, false, true)));
    assert!(is_virtual_device_available(Platform::MacOs, probe(false, false, true)));
    assert!(!is_virtual_device_available(Platform::MacOs, probe(true, true, false)));
    assert!(!is_virtual_device_available(Platform::Other, probe(true, true, true)));
}

#[test]
fn driver_probes_report_installed_state() {
    assert!(ctap_vhf::is_driver_available(true));
    assert!(!ctap_vhf::is_driver_available(false));
    assert!(ctap_driverkit::is_driver_available(true));
    assert!(!ctap_driverkit::is_driver_available(false));
}
