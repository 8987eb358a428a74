//! The feature codec: validation that a device exposes the sidetone
//! control, and construction of the fixed-length feature-report payload.

use vstd::prelude::*;

verus! {

use crate::catalog::DeviceDescriptor;
use crate::catalog::DeviceId;
use crate::catalog::FeatureReport;
use crate::errors::ControlError;

/// The byte carried at offset 2 of the payload: the boolean state as an
/// integer in {0, 1}.
pub open spec fn spec_enabled_byte(enabled: bool) -> u8 {
    if enabled {
        1u8
    } else {
        0u8
    }
}

/// The complete payload for one feature report: report id, then selector,
/// then the 16-bit state value little-endian across offsets 2 and 3 (its
/// high byte is always zero for this value range), then zero padding up to
/// the report's fixed length.
pub open spec fn spec_payload(report: FeatureReport, enabled: bool) -> Seq<u8> {
    Seq::new(
        report.length as nat,
        |i: int|
            if i == 0 {
                report.report_id
            } else if i == 1 {
                report.selector
            } else if i == 2 {
                spec_enabled_byte(enabled)
            } else {
                0u8
            },
    )
}

/// Check that a device exposes the sidetone control. Fails exactly when the
/// descriptor's feature slot is empty.
pub fn validate_feature(device_id: DeviceId, descriptor: DeviceDescriptor) -> (result: Result<
    FeatureReport,
    ControlError,
>)
    ensures
        (match descriptor.sidetone_feature {
            Some(feature) => result == Ok::<FeatureReport, ControlError>(feature),
            None => result == Err::<FeatureReport, ControlError>(
                ControlError::UnsupportedFeature { device_id },
            ),
        }),
{
    match descriptor.sidetone_feature {
        Some(feature) => Ok(feature),
        None => Err(ControlError::UnsupportedFeature { device_id }),
    }
}

/// Build the payload for one feature report: a zero-filled buffer of
/// exactly `report.length` bytes with the header written at offsets 0..4.
///
/// The length must leave room for the fixed header (report id, selector and
/// the two-byte state value); every cataloged report spec does.
pub fn build_feature_payload(report: FeatureReport, enabled: bool) -> (payload: Vec<u8>)
    requires
        report.length >= 4,
    ensures
        payload@ == spec_payload(report, enabled),
{
    let mut payload: Vec<u8> = Vec::new();
    let mut i: usize = 0;
    while i < report.length
        invariant
            i <= report.length,
            payload@.len() == i,
            forall|k: int| 0 <= k < i ==> payload@[k] == 0u8,
        decreases report.length - i,
    {
        payload.push(0u8);
        i = i + 1;
    }
    payload[0] = report.report_id;
    payload[1] = report.selector;
    let value: u16 = if enabled {
        1u16
    } else {
        0u16
    };
    payload[2] = (value & 0xFF) as u8;
    payload[3] = (value >> 8) as u8;
    proof {
        assert(1u16 & 0xFF == 1u16 && 0u16 & 0xFF == 0u16 && 1u16 >> 8 == 0u16 && 0u16 >> 8
            == 0u16) by (bit_vector);
        assert(payload@ =~= spec_payload(report, enabled));
    }
    payload
}

/// The payloads for the two states have the report's exact length, carry
/// the state byte 1 or 0 at offset 2, agree at every other offset, and are
/// zero from offset 4 up.
pub proof fn lemma_payload_shape(report: FeatureReport)
    requires
        report.length >= 4,
    ensures
        spec_payload(report, true).len() == report.length,
        spec_payload(report, false).len() == report.length,
        spec_payload(report, true)[2] == 1u8,
        spec_payload(report, false)[2] == 0u8,
        forall|i: int|
            0 <= i < report.length && i != 2 ==> spec_payload(report, true)[i] == spec_payload(
                report,
                false,
            )[i],
        forall|i: int| 4 <= i < report.length ==> spec_payload(report, true)[i] == 0u8,
        forall|i: int| 4 <= i < report.length ==> spec_payload(report, false)[i] == 0u8,
{
}

/// Payload construction is deterministic: two buffers built from the same
/// report spec and the same state are byte-identical.
pub proof fn lemma_payload_deterministic(
    report: FeatureReport,
    enabled: bool,
    first: Seq<u8>,
    second: Seq<u8>,
)
    requires
        first == spec_payload(report, enabled),
        second == spec_payload(report, enabled),
    ensures
        first == second,
{
}

} // verus!
