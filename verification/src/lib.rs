//! Control of the sidetone (microphone monitoring) feature on supported
//! HyperX USB headsets, by way of HID feature reports.
//!
//! The crate holds a static catalog of known devices, resolves each device
//! identity to its USB vendor/product identifiers and feature-report
//! geometry, builds the fixed-length report payload, and delivers it over
//! the HID transport.

use vstd::prelude::*;

pub mod catalog;
pub mod codec;
pub mod errors;
pub mod hid;
pub mod session;

pub use session::set_sidetone;

pub use codec::build_feature_payload;
pub use codec::validate_feature;

pub use errors::ControlError;

pub use catalog::DeviceDescriptor;
pub use catalog::DeviceId;
pub use catalog::DeviceMetadata;
pub use catalog::FeatureReport;
pub use catalog::find_descriptor;
pub use catalog::supported_devices;

verus! {

/// Total length in bytes of the sidetone feature report.
pub const REPORT_LENGTH: usize = 62;

} // verus!
