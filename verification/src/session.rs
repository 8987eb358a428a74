//! The HID session: resolve a device, validate the feature, build the
//! payload and deliver it as a feature report, surfacing every failure as
//! a typed error.

use vstd::prelude::*;

verus! {

use crate::catalog::DeviceId;
use crate::catalog::find_descriptor;
use crate::catalog::spec_descriptor;
use crate::codec::build_feature_payload;
use crate::codec::spec_payload;
use crate::codec::validate_feature;
use crate::errors::ControlError;
use crate::hid::hid_api_new;
use crate::hid::hid_error_message;
use crate::hid::hid_open;
use crate::hid::hid_send_feature_report;

/// The bytes a sidetone toggle for this device and state puts on the wire,
/// where the device exposes the feature.
pub open spec fn spec_wire_bytes(device_id: DeviceId, enabled: bool) -> Seq<u8> {
    match spec_descriptor(device_id).sidetone_feature {
        Some(feature) => spec_payload(feature, enabled),
        None => Seq::empty(),
    }
}

/// Toggle the sidetone feature for a particular device.
///
/// Each call is one attempt with no retries: the descriptor is resolved,
/// the feature validated, the HID subsystem initialised, the device opened
/// by its vendor/product identifiers, and the payload sent as a feature
/// report. The first failure is returned at once, wrapped with its
/// context; the device handle never outlives the call.
pub fn set_sidetone(device_id: DeviceId, enabled: bool) -> (result: Result<(), ControlError>)
    ensures
        (match result {
            Ok(_) => spec_descriptor(device_id).sidetone_feature is Some,
            Err(error) => match error {
                ControlError::UnsupportedFeature { device_id: unsupported } => unsupported
                    == device_id && spec_descriptor(device_id).sidetone_feature is None,
                ControlError::HidInit { .. } => spec_descriptor(
                    device_id,
                ).sidetone_feature is Some,
                ControlError::DeviceOpen { vendor_id, product_id, .. } => spec_descriptor(
                    device_id,
                ).sidetone_feature is Some && vendor_id == spec_descriptor(device_id).vendor_id
                    && product_id == spec_descriptor(device_id).product_id,
                ControlError::ReportSend { report_id, selector, .. } => match spec_descriptor(
                    device_id,
                ).sidetone_feature {
                    Some(feature) => report_id == feature.report_id && selector
                        == feature.selector,
                    None => false,
                },
            },
        }),
{
    let descriptor = find_descriptor(device_id);
    let feature = match validate_feature(device_id, descriptor) {
        Ok(feature) => feature,
        Err(error) => {
            return Err(error);
        },
    };
    let api = match hid_api_new() {
        Ok(api) => api,
        Err(error) => {
            return Err(ControlError::HidInit { cause: hid_error_message(&error) });
        },
    };
    let device = match hid_open(&api, descriptor.vendor_id, descriptor.product_id) {
        Ok(device) => device,
        Err(error) => {
            return Err(
                ControlError::DeviceOpen {
                    vendor_id: descriptor.vendor_id,
                    product_id: descriptor.product_id,
                    cause: hid_error_message(&error),
                },
            );
        },
    };
    let payload = build_feature_payload(feature, enabled);
    proof {
        assert(payload@ == spec_wire_bytes(device_id, enabled));
    }
    match hid_send_feature_report(&device, payload.as_slice()) {
        Ok(_) => Ok(()),
        Err(error) => Err(
            ControlError::ReportSend {
                report_id: feature.report_id,
                selector: feature.selector,
                cause: hid_error_message(&error),
            },
        ),
    }
}

/// At the protocol level the toggle is idempotent: two transmissions for
/// the same device and the same state carry byte-identical wire payloads —
/// the encoding holds no hidden toggle or accumulator state.
pub proof fn lemma_repeated_send_same_wire_bytes(
    device_id: DeviceId,
    enabled: bool,
    first: Seq<u8>,
    second: Seq<u8>,
)
    requires
        first == spec_wire_bytes(device_id, enabled),
        second == spec_wire_bytes(device_id, enabled),
    ensures
        first == second,
{
}

} // verus!
