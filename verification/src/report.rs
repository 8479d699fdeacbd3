//! Rendering the report for a recognized device: the selected endpoint's
//! fields as two-digit hexadecimal lines and the microphone type label.

use vstd::prelude::*;
use vstd::string::StringExecFns;
use crate::classify::{ProductIdentifier, VendorIdentifier};
use crate::descriptor::EndpointDescriptor;

verus! {

/// The pairing of a recognized vendor and a recognized product, held only
/// while one device is reported.
#[derive(Clone, Copy, Debug, PartialEq, Eq, Structural)]
pub struct DeviceClassification {
    pub vendor: VendorIdentifier,
    pub product: ProductIdentifier,
}

/// What is reported for one recognized device: its classification and the
/// endpoint selected for communication.
#[derive(Clone, Copy, Debug, PartialEq, Eq, Structural)]
pub struct DeviceReport {
    pub classification: DeviceClassification,
    pub endpoint: EndpointDescriptor,
}

/// The microphone type label of a classification. Every recognized pairing
/// has its own label; a valid but unhandled pairing falls back to "Unknown".
pub open spec fn spec_label(c: DeviceClassification) -> Seq<char> {
    match (c.vendor, c.product) {
        (VendorIdentifier::NA, ProductIdentifier::NA) => "NA"@,
        (VendorIdentifier::EU, ProductIdentifier::EU1) => "EU1"@,
        (VendorIdentifier::EU, ProductIdentifier::EU2) => "EU2"@,
        (VendorIdentifier::EU, ProductIdentifier::EU3) => "EU3"@,
        (VendorIdentifier::EU, ProductIdentifier::EU4) => "EU4"@,
        _ => "Unknown"@,
    }
}

/// The full label line of the report.
pub open spec fn spec_label_line(c: DeviceClassification) -> Seq<char> {
    "This is microphone type: "@ + spec_label(c) + "."@
}

/// Maps a classification to its microphone type label, exhaustively.
pub fn label(c: &DeviceClassification) -> (r: &'static str)
    ensures
        r@ == spec_label(*c),
{
    match (c.vendor, c.product) {
        (VendorIdentifier::NA, ProductIdentifier::NA) => "NA",
        (VendorIdentifier::EU, ProductIdentifier::EU1) => "EU1",
        (VendorIdentifier::EU, ProductIdentifier::EU2) => "EU2",
        (VendorIdentifier::EU, ProductIdentifier::EU3) => "EU3",
        (VendorIdentifier::EU, ProductIdentifier::EU4) => "EU4",
        _ => "Unknown",
    }
}

/// The character for one hexadecimal digit, lowercase.
pub open spec fn spec_hex_digit(d: int) -> char {
    if d == 0 {
        '0'
    } else if d == 1 {
        '1'
    } else if d == 2 {
        '2'
    } else if d == 3 {
        '3'
    } else if d == 4 {
        '4'
    } else if d == 5 {
        '5'
    } else if d == 6 {
        '6'
    } else if d == 7 {
        '7'
    } else if d == 8 {
        '8'
    } else if d == 9 {
        '9'
    } else if d == 10 {
        'a'
    } else if d == 11 {
        'b'
    } else if d == 12 {
        'c'
    } else if d == 13 {
        'd'
    } else if d == 14 {
        'e'
    } else {
        'f'
    }
}

/// A byte rendered as a report line: "0x" followed by exactly two lowercase
/// hexadecimal digits, zero-padded.
pub open spec fn spec_hex_byte(b: u8) -> Seq<char> {
    seq![
        '0',
        'x',
        spec_hex_digit(b as int / 16),
        spec_hex_digit(b as int % 16),
    ]
}

fn hex_digit_str(d: u8) -> (r: &'static str)
    requires
        d < 16,
    ensures
        r@ == seq![spec_hex_digit(d as int)],
{
    if d == 0 {
        proof {
            reveal_strlit("0");
        }
        assert("0"@ =~= seq![spec_hex_digit(0)]);
        "0"
    } else if d == 1 {
        proof {
            reveal_strlit("1");
        }
        assert("1"@ =~= seq![spec_hex_digit(1)]);
        "1"
    } else if d == 2 {
        proof {
            reveal_strlit("2");
        }
        assert("2"@ =~= seq![spec_hex_digit(2)]);
        "2"
    } else if d == 3 {
        proof {
            reveal_strlit("3");
        }
        assert("3"@ =~= seq![spec_hex_digit(3)]);
        "3"
    } else if d == 4 {
        proof {
            reveal_strlit("4");
        }
        assert("4"@ =~= seq![spec_hex_digit(4)]);
        "4"
    } else if d == 5 {
        proof {
            reveal_strlit("5");
        }
        assert("5"@ =~= seq![spec_hex_digit(5)]);
        "5"
    } else if d == 6 {
        proof {
            reveal_strlit("6");
        }
        assert("6"@ =~= seq![spec_hex_digit(6)]);
        "6"
    } else if d == 7 {
        proof {
            reveal_strlit("7");
        }
        assert("7"@ =~= seq![spec_hex_digit(7)]);
        "7"
    } else if d == 8 {
        proof {
            reveal_strlit("8");
        }
        assert("8"@ =~= seq![spec_hex_digit(8)]);
        "8"
    } else if d == 9 {
        proof {
            reveal_strlit("9");
        }
        assert("9"@ =~= seq![spec_hex_digit(9)]);
        "9"
    } else if d == 10 {
        proof {
            reveal_strlit("a");
        }
        assert("a"@ =~= seq![spec_hex_digit(10)]);
        "a"
    } else if d == 11 {
        proof {
            reveal_strlit("b");
        }
        assert("b"@ =~= seq![spec_hex_digit(11)]);
        "b"
    } else if d == 12 {
        proof {
            reveal_strlit("c");
        }
        assert("c"@ =~= seq![spec_hex_digit(12)]);
        "c"
    } else if d == 13 {
        proof {
            reveal_strlit("d");
        }
        assert("d"@ =~= seq![spec_hex_digit(13)]);
        "d"
    } else if d == 14 {
        proof {
            reveal_strlit("e");
        }
        assert("e"@ =~= seq![spec_hex_digit(14)]);
        "e"
    } else {
        proof {
            reveal_strlit("f");
        }
        assert("f"@ =~= seq![spec_hex_digit(15)]);
        "f"
    }
}

/// Renders a byte as the report renders it: a "0x" prefix and exactly two
/// lowercase hexadecimal digits.
pub fn hex_byte(b: u8) -> (r: String)
    ensures
        r@ == spec_hex_byte(b),
{
    let mut s = String::new();
    s.append("0x");
    s.append(hex_digit_str(b / 16));
    s.append(hex_digit_str(b % 16));
    proof {
        reveal_strlit("0x");
        assert(s@ =~= spec_hex_byte(b));
    }
    s
}

/// The five report lines for one recognized device, in emission order: the
/// selected endpoint's configuration number, interface number, alternate
/// setting number, and address, each in two-digit hexadecimal, then the
/// microphone type label line.
pub fn render_report(r: &DeviceReport) -> (lines: Vec<String>)
    ensures
        lines@.len() == 5,
        lines@[0]@ == spec_hex_byte(r.endpoint.config),
        lines@[1]@ == spec_hex_byte(r.endpoint.iface),
        lines@[2]@ == spec_hex_byte(r.endpoint.setting),
        lines@[3]@ == spec_hex_byte(r.endpoint.address),
        lines@[4]@ == spec_label_line(r.classification),
{
    let mut lines: Vec<String> = Vec::new();
    lines.push(hex_byte(r.endpoint.config));
    lines.push(hex_byte(r.endpoint.iface));
    lines.push(hex_byte(r.endpoint.setting));
    lines.push(hex_byte(r.endpoint.address));
    let mut label_line = String::from_str("This is microphone type: ");
    label_line.append(label(&r.classification));
    label_line.append(".");
    lines.push(label_line);
    lines
}

} // verus!
