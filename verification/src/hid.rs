//! The HID transport boundary. Every call into the `hidapi` crate stands
//! here, behind a trusted item; the session logic above is verified against
//! these contracts.
//!
//! The transport is a physical I/O boundary: whether initialisation, open
//! or transmission succeeds depends on the machine, so nothing is promised
//! of the outcomes beyond their types.

use vstd::prelude::*;

verus! {

#[verifier::external_type_specification]
#[verifier::external_body]
pub struct ExHidApi(hidapi::HidApi);

#[verifier::external_type_specification]
#[verifier::external_body]
pub struct ExHidDevice(hidapi::HidDevice);

#[verifier::external_type_specification]
#[verifier::external_body]
pub struct ExHidError(hidapi::HidError);

/// Relies on hidapi::HidApi::new: initialise the HID subsystem and index
/// the attached devices, or report why that failed.
#[verifier::external_body]
pub(crate) fn hid_api_new() -> Result<hidapi::HidApi, hidapi::HidError> {
    hidapi::HidApi::new()
}

/// Relies on hidapi::HidApi::open: open the first attached device carrying
/// the given USB vendor and product identifiers, or report why none could
/// be opened.
#[verifier::external_body]
pub(crate) fn hid_open(api: &hidapi::HidApi, vendor_id: u16, product_id: u16) -> Result<
    hidapi::HidDevice,
    hidapi::HidError,
> {
    api.open(vendor_id, product_id)
}

/// Relies on hidapi::HidDevice::send_feature_report: transmit the buffer as
/// a feature report over the control endpoint, with the report id in its
/// first byte, or report why the transport or device rejected it.
#[verifier::external_body]
pub(crate) fn hid_send_feature_report(device: &hidapi::HidDevice, data: &[u8]) -> Result<
    (),
    hidapi::HidError,
> {
    device.send_feature_report(data)
}

/// Relies on the Display impl of hidapi::HidError for the transport's own
/// diagnostic text.
#[verifier::external_body]
pub(crate) fn hid_error_message(error: &hidapi::HidError) -> String {
    error.to_string()
}

} // verus!
