//! The error taxonomy crossing the module boundary, and the rendering of
//! each failure into a human-readable diagnostic.

use vstd::prelude::*;

verus! {

use vstd::string::StringExecFns;

use crate::catalog::DeviceId;

/// Every failure a sidetone operation can surface. Each variant carries
/// enough context to explain the failure without a debugger: the numeric
/// identifiers involved and the transport's own diagnostic text.
#[derive(Debug)]
pub enum ControlError {
    /// The HID transport subsystem could not be initialised.
    HidInit { cause: String },
    /// The physical device could not be opened; the expected failure when
    /// the headset is unplugged or owned by another process.
    DeviceOpen { vendor_id: u16, product_id: u16, cause: String },
    /// The transport or the device rejected the feature report.
    ReportSend { report_id: u8, selector: u8, cause: String },
    /// The device does not expose the requested control.
    UnsupportedFeature { device_id: DeviceId },
}

/// The uppercase hexadecimal digit for one nibble.
pub open spec fn spec_hex_digit(nibble: u8) -> char {
    if nibble == 0 {
        '0'
    } else if nibble == 1 {
        '1'
    } else if nibble == 2 {
        '2'
    } else if nibble == 3 {
        '3'
    } else if nibble == 4 {
        '4'
    } else if nibble == 5 {
        '5'
    } else if nibble == 6 {
        '6'
    } else if nibble == 7 {
        '7'
    } else if nibble == 8 {
        '8'
    } else if nibble == 9 {
        '9'
    } else if nibble == 10 {
        'A'
    } else if nibble == 11 {
        'B'
    } else if nibble == 12 {
        'C'
    } else if nibble == 13 {
        'D'
    } else if nibble == 14 {
        'E'
    } else {
        'F'
    }
}

fn hex_digit_str(nibble: u8) -> (r: &'static str)
    requires
        nibble < 16,
    ensures
        r@.len() == 1,
        r@[0] == spec_hex_digit(nibble),
{
    proof {
        reveal_strlit("0");
        reveal_strlit("1");
        reveal_strlit("2");
        reveal_strlit("3");
        reveal_strlit("4");
        reveal_strlit("5");
        reveal_strlit("6");
        reveal_strlit("7");
        reveal_strlit("8");
        reveal_strlit("9");
        reveal_strlit("A");
        reveal_strlit("B");
        reveal_strlit("C");
        reveal_strlit("D");
        reveal_strlit("E");
        reveal_strlit("F");
    }
    if nibble == 0 {
        "0"
    } else if nibble == 1 {
        "1"
    } else if nibble == 2 {
        "2"
    } else if nibble == 3 {
        "3"
    } else if nibble == 4 {
        "4"
    } else if nibble == 5 {
        "5"
    } else if nibble == 6 {
        "6"
    } else if nibble == 7 {
        "7"
    } else if nibble == 8 {
        "8"
    } else if nibble == 9 {
        "9"
    } else if nibble == 10 {
        "A"
    } else if nibble == 11 {
        "B"
    } else if nibble == 12 {
        "C"
    } else if nibble == 13 {
        "D"
    } else if nibble == 14 {
        "E"
    } else {
        "F"
    }
}

/// A 16-bit value as four uppercase hexadecimal digits, most significant
/// first, zero-padded to the full width.
pub open spec fn spec_u16_hex(v: u16) -> Seq<char> {
    seq![
        spec_hex_digit(((v >> 12) & 0xF) as u8),
        spec_hex_digit(((v >> 8) & 0xF) as u8),
        spec_hex_digit(((v >> 4) & 0xF) as u8),
        spec_hex_digit((v & 0xF) as u8),
    ]
}

/// Render a 16-bit value as four uppercase hexadecimal digits.
pub fn u16_to_hex(v: u16) -> (r: String)
    ensures
        r@ == spec_u16_hex(v),
{
    assert((v >> 12) & 0xF < 16 && (v >> 8) & 0xF < 16 && (v >> 4) & 0xF < 16 && v & 0xF < 16)
        by (bit_vector);
    let mut r = String::new();
    r.append(hex_digit_str(((v >> 12) & 0xF) as u8));
    r.append(hex_digit_str(((v >> 8) & 0xF) as u8));
    r.append(hex_digit_str(((v >> 4) & 0xF) as u8));
    r.append(hex_digit_str((v & 0xF) as u8));
    proof {
        assert(r@ =~= spec_u16_hex(v));
    }
    r
}

/// An 8-bit value as two uppercase hexadecimal digits, most significant
/// first, zero-padded to the full width.
pub open spec fn spec_u8_hex(v: u8) -> Seq<char> {
    seq![spec_hex_digit((v >> 4) & 0xF), spec_hex_digit(v & 0xF)]
}

/// Render an 8-bit value as two uppercase hexadecimal digits.
pub fn u8_to_hex(v: u8) -> (r: String)
    ensures
        r@ == spec_u8_hex(v),
{
    assert((v >> 4) & 0xF < 16 && v & 0xF < 16) by (bit_vector);
    let mut r = String::new();
    r.append(hex_digit_str((v >> 4) & 0xF));
    r.append(hex_digit_str(v & 0xF));
    proof {
        assert(r@ =~= spec_u8_hex(v));
    }
    r
}

/// The name a device identity is reported under in diagnostics.
pub open spec fn spec_device_name(device_id: DeviceId) -> Seq<char> {
    match device_id {
        DeviceId::CloudIiiWired => "CloudIiiWired"@,
    }
}

fn device_name(device_id: DeviceId) -> (r: &'static str)
    ensures
        r@ == spec_device_name(device_id),
{
    match device_id {
        DeviceId::CloudIiiWired => "CloudIiiWired",
    }
}

/// The full diagnostic text for a failure.
pub open spec fn spec_message(error: ControlError) -> Seq<char> {
    match error {
        ControlError::HidInit { cause } => "failed to initialise HID API: "@ + cause@,
        ControlError::DeviceOpen { vendor_id, product_id, cause } => "unable to open device (VID=0x"@
            + spec_u16_hex(vendor_id) + ", PID=0x"@ + spec_u16_hex(product_id) + "): "@ + cause@,
        ControlError::ReportSend { report_id, selector, cause } => "failed to send feature report (id=0x"@
            + spec_u8_hex(report_id) + ", selector=0x"@ + spec_u8_hex(selector) + "): "@ + cause@,
        ControlError::UnsupportedFeature { device_id } => "device "@ + spec_device_name(device_id)
            + " does not support this feature"@,
    }
}

impl ControlError {
    /// Render this failure as a human-readable diagnostic, with the numeric
    /// identifiers in hexadecimal and the wrapped low-level cause verbatim.
    pub fn message(&self) -> (r: String)
        ensures
            r@ == spec_message(*self),
    {
        match self {
            ControlError::HidInit { cause } => {
                let mut r = String::from_str("failed to initialise HID API: ");
                r.append(cause.as_str());
                proof {
                    assert(r@ =~= spec_message(*self));
                }
                r
            },
            ControlError::DeviceOpen { vendor_id, product_id, cause } => {
                let mut r = String::from_str("unable to open device (VID=0x");
                let vendor_hex = u16_to_hex(*vendor_id);
                r.append(vendor_hex.as_str());
                r.append(", PID=0x");
                let product_hex = u16_to_hex(*product_id);
                r.append(product_hex.as_str());
                r.append("): ");
                r.append(cause.as_str());
                proof {
                    assert(r@ =~= spec_message(*self));
                }
                r
            },
            ControlError::ReportSend { report_id, selector, cause } => {
                let mut r = String::from_str("failed to send feature report (id=0x");
                let report_hex = u8_to_hex(*report_id);
                r.append(report_hex.as_str());
                r.append(", selector=0x");
                let selector_hex = u8_to_hex(*selector);
                r.append(selector_hex.as_str());
                r.append("): ");
                r.append(cause.as_str());
                proof {
                    assert(r@ =~= spec_message(*self));
                }
                r
            },
            ControlError::UnsupportedFeature { device_id } => {
                let mut r = String::from_str("device ");
                r.append(device_name(*device_id));
                r.append(" does not support this feature");
                proof {
                    assert(r@ =~= spec_message(*self));
                }
                r
            },
        }
    }
}

} // verus!
