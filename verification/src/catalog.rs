//! The static catalog of supported devices and the resolver that maps a
//! device identity to its USB hardware descriptor.

use vstd::prelude::*;

verus! {

use crate::REPORT_LENGTH;

/// Identifiers for supported HyperX headsets.
#[derive(Debug, Clone, Copy, PartialEq, Eq, Structural)]
pub enum DeviceId {
    CloudIiiWired,
}

/// A catalog entry: a device identity together with its human-readable label.
#[derive(Debug, Clone, Copy)]
pub struct DeviceMetadata {
    pub id: DeviceId,
    pub label: &'static str,
}

/// Geometry of one HID feature report: the report identifier byte, the
/// selector byte naming the logical feature within the report, and the total
/// payload length in bytes.
#[derive(Debug, Clone, Copy, PartialEq, Eq, Structural)]
pub struct FeatureReport {
    pub report_id: u8,
    pub selector: u8,
    pub length: usize,
}

/// The full hardware identity of a device: USB vendor and product
/// identifiers, and the sidetone feature-report geometry where the device
/// supports that feature.
#[derive(Debug, Clone, Copy)]
pub struct DeviceDescriptor {
    pub vendor_id: u16,
    pub product_id: u16,
    pub sidetone_feature: Option<FeatureReport>,
}

/// The descriptor every device identity resolves to. The resolver is a total
/// function over the closed set of identities: each enum variant has an arm
/// here, so an unmatched identity cannot compile.
pub open spec fn spec_descriptor(device_id: DeviceId) -> DeviceDescriptor {
    match device_id {
        DeviceId::CloudIiiWired => DeviceDescriptor {
            vendor_id: 0x03F0,
            product_id: 0x089D,
            sidetone_feature: Some(
                FeatureReport { report_id: 0x20, selector: 0x86, length: REPORT_LENGTH },
            ),
        },
    }
}

/// Resolve a device identity to its hardware descriptor.
pub fn find_descriptor(device_id: DeviceId) -> (descriptor: DeviceDescriptor)
    ensures
        descriptor == spec_descriptor(device_id),
{
    match device_id {
        DeviceId::CloudIiiWired => DeviceDescriptor {
            vendor_id: 0x03F0,
            product_id: 0x089D,
            sidetone_feature: Some(
                FeatureReport { report_id: 0x20, selector: 0x86, length: REPORT_LENGTH },
            ),
        },
    }
}

/// The label shown for a device identity.
pub open spec fn spec_label(device_id: DeviceId) -> Seq<char> {
    match device_id {
        DeviceId::CloudIiiWired => "Cloud III (wired)"@,
    }
}

/// Return the static list of known devices. A declared capability list, not
/// a live enumeration: it says nothing about which devices are reachable.
pub fn supported_devices() -> (devices: Vec<DeviceMetadata>)
    ensures
        devices@.len() == 1,
        devices@[0].id == DeviceId::CloudIiiWired,
        devices@[0].label@ == spec_label(DeviceId::CloudIiiWired),
{
    let mut devices: Vec<DeviceMetadata> = Vec::new();
    devices.push(DeviceMetadata { id: DeviceId::CloudIiiWired, label: "Cloud III (wired)" });
    devices
}

/// Every cataloged identity resolves to the documented hardware values: the
/// wired Cloud III carries USB vendor 0x03F0 and product 0x089D.
pub proof fn lemma_catalog_hardware_ids()
    ensures
        forall|device_id: DeviceId|
            spec_descriptor(device_id).vendor_id == 0x03F0
                && spec_descriptor(device_id).product_id == 0x089D,
{
}

/// Every cataloged identity exposes the sidetone feature, with the report
/// geometry the device firmware expects: report id 0x20, selector 0x86, a
/// payload of `REPORT_LENGTH` bytes.
pub proof fn lemma_catalog_supports_sidetone()
    ensures
        forall|device_id: DeviceId|
            spec_descriptor(device_id).sidetone_feature == Some(
                FeatureReport { report_id: 0x20, selector: 0x86, length: REPORT_LENGTH },
            ),
{
}

} // verus!
