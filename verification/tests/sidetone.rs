use hyperx_sidetone::ControlError;
use hyperx_sidetone::DeviceDescriptor;
use hyperx_sidetone::DeviceId;
use hyperx_sidetone::FeatureReport;
use hyperx_sidetone::build_feature_payload;
use hyperx_sidetone::find_descriptor;
use hyperx_sidetone::set_sidetone;
use hyperx_sidetone::supported_devices;
use hyperx_sidetone::validate_feature;
use hyperx_sidetone::errors::u16_to_hex;
use hyperx_sidetone::errors::u8_to_hex;

#[test]
fn catalog_lists_exactly_the_wired_cloud_iii() {
    let devices = supported_devices();
    assert_eq!(devices.len(), 1);
    assert_eq!(devices[0].id, DeviceId::CloudIiiWired);
    assert_eq!(devices[0].label, "Cloud III (wired)");
}

#[test]
fn catalog_is_stable_across_calls() {
    let first = supported_devices();
    let second = supported_devices();
    assert_eq!(first.len(), second.len());
    assert_eq!(first[0].id, second[0].id);
    assert_eq!(first[0].label, second[0].label);
}

#[test]
fn cloud_iii_wired_resolves_to_documented_hardware_ids() {
    let descriptor = find_descriptor(DeviceId::CloudIiiWired);
    assert_eq!(descriptor.vendor_id, 0x03F0);
    assert_eq!(descriptor.product_id, 0x089D);
    let feature = descriptor.sidetone_feature.expect("cataloged device supports sidetone");
    assert_eq!(feature.report_id, 0x20);
    assert_eq!(feature.selector, 0x86);
    assert_eq!(feature.length, 62);
}

#[test]
fn validate_feature_succeeds_for_the_cataloged_device() {
    let descriptor = find_descriptor(DeviceId::CloudIiiWired);
    let feature = validate_feature(DeviceId::CloudIiiWired, descriptor)
        .expect("cataloged device supports sidetone");
    assert_eq!(feature.report_id, 0x20);
    assert_eq!(feature.selector, 0x86);
    assert_eq!(feature.length, 62);
}

#[test]
fn validate_feature_fails_when_the_feature_slot_is_empty() {
    let descriptor = DeviceDescriptor {
        vendor_id: 0x03F0,
        product_id: 0x089D,
        sidetone_feature: None,
    };
    let error = validate_feature(DeviceId::CloudIiiWired, descriptor)
        .expect_err("an empty feature slot is unsupported");
    assert!(matches!(
        error,
        ControlError::UnsupportedFeature { device_id: DeviceId::CloudIiiWired }
    ));
}

#[test]
fn payload_for_enabled_matches_the_documented_wire_bytes() {
    let feature = FeatureReport { report_id: 0x20, selector: 0x86, length: 62 };
    let payload = build_feature_payload(feature, true);
    let mut expected = vec![0u8; 62];
    expected[0] = 0x20;
    expected[1] = 0x86;
    expected[2] = 0x01;
    assert_eq!(payload, expected);
}

#[test]
fn payload_for_disabled_clears_the_state_byte() {
    let feature = FeatureReport { report_id: 0x20, selector: 0x86, length: 62 };
    let payload = build_feature_payload(feature, false);
    let mut expected = vec![0u8; 62];
    expected[0] = 0x20;
    expected[1] = 0x86;
    assert_eq!(payload, expected);
}

#[test]
fn payloads_differ_only_at_the_state_byte() {
    let feature = FeatureReport { report_id: 0x20, selector: 0x86, length: 62 };
    let enabled = build_feature_payload(feature, true);
    let disabled = build_feature_payload(feature, false);
    assert_eq!(enabled.len(), 62);
    assert_eq!(disabled.len(), 62);
    for i in 0..62 {
        if i == 2 {
            assert_eq!(enabled[i], 1);
            assert_eq!(disabled[i], 0);
        } else {
            assert_eq!(enabled[i], disabled[i]);
        }
        if i >= 4 {
            assert_eq!(enabled[i], 0);
            assert_eq!(disabled[i], 0);
        }
    }
}

#[test]
fn payload_construction_is_deterministic() {
    let feature = FeatureReport { report_id: 0x20, selector: 0x86, length: 62 };
    assert_eq!(build_feature_payload(feature, true), build_feature_payload(feature, true));
    assert_eq!(build_feature_payload(feature, false), build_feature_payload(feature, false));
}

#[test]
fn payload_respects_the_report_length() {
    let feature = FeatureReport { report_id: 0x07, selector: 0x11, length: 9 };
    let payload = build_feature_payload(feature, true);
    assert_eq!(payload, vec![0x07, 0x11, 0x01, 0x00, 0x00, 0x00, 0x00, 0x00, 0x00]);
}

#[test]
fn hex_rendering_is_zero_padded_uppercase() {
    assert_eq!(u16_to_hex(0x03F0), "03F0");
    assert_eq!(u16_to_hex(0x089D), "089D");
    assert_eq!(u16_to_hex(0x0000), "0000");
    assert_eq!(u16_to_hex(0xFFFF), "FFFF");
    assert_eq!(u8_to_hex(0x20), "20");
    assert_eq!(u8_to_hex(0x86), "86");
    assert_eq!(u8_to_hex(0x0A), "0A");
}

#[test]
fn hid_init_message_wraps_the_cause() {
    let error = ControlError::HidInit { cause: "no bus".to_string() };
    assert_eq!(error.message(), "failed to initialise HID API: no bus");
}

#[test]
fn device_open_message_names_the_hardware_ids_in_hex() {
    let error = ControlError::DeviceOpen {
        vendor_id: 0x03F0,
        product_id: 0x089D,
        cause: "device busy".to_string(),
    };
    assert_eq!(
        error.message(),
        "unable to open device (VID=0x03F0, PID=0x089D): device busy"
    );
}

#[test]
fn report_send_message_names_the_report_geometry_in_hex() {
    let error = ControlError::ReportSend {
        report_id: 0x20,
        selector: 0x86,
        cause: "write rejected".to_string(),
    };
    assert_eq!(
        error.message(),
        "failed to send feature report (id=0x20, selector=0x86): write rejected"
    );
}

#[test]
fn unsupported_feature_message_names_the_device() {
    let error = ControlError::UnsupportedFeature { device_id: DeviceId::CloudIiiWired };
    assert_eq!(error.message(), "device CloudIiiWired does not support this feature");
}

#[test]
fn set_sidetone_with_the_device_absent_reports_the_documented_ids() {
    // No headset is attached here, so the toggle must fail. The expected
    // failure is DeviceOpen carrying the cataloged hardware identifiers;
    // on hosts with no HID subsystem at all, initialisation itself fails
    // first and HidInit is the correct report.
    let error = set_sidetone(DeviceId::CloudIiiWired, true)
        .expect_err("no physical device is attached");
    match error {
        ControlError::DeviceOpen { vendor_id, product_id, .. } => {
            assert_eq!(vendor_id, 0x03F0);
            assert_eq!(product_id, 0x089D);
        }
        ControlError::HidInit { .. } => {}
        other => panic!("unexpected failure: {}", other.message()),
    }
}
