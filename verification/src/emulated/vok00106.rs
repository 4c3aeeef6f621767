//! Master Controller II, a serial device behind a USB-to-serial bridge.
//!
//! The report is a sequence of five-letter ASCII tokens, each followed by
//! a carriage return: one handle token (a nonzero brake overrides the
//! power lookup) and one token per action button.

use vstd::prelude::*;

use crate::emulated::DeviceDescriptor;
use crate::physical::ControllerState;
use crate::physical::wf;

verus! {

/// The handle token for each power notch: "TSA50" up to "TSA95".
pub open spec fn spec_power_token(p: int) -> Seq<u8> {
    if p == 0 {
        seq![0x54u8, 0x53, 0x41, 0x35, 0x30]
    } else if p == 1 {
        seq![0x54u8, 0x53, 0x41, 0x35, 0x35]
    } else if p == 2 {
        seq![0x54u8, 0x53, 0x41, 0x36, 0x35]
    } else if p == 3 {
        seq![0x54u8, 0x53, 0x41, 0x37, 0x35]
    } else if p == 4 {
        seq![0x54u8, 0x53, 0x41, 0x38, 0x35]
    } else {
        seq![0x54u8, 0x53, 0x41, 0x39, 0x35]
    }
}

/// The handle token for each brake notch: "TSA50" down through "TSA05",
/// then the emergency "TSE99" and the "TSB40" to "TSB20" codes.
pub open spec fn spec_brake_token(b: int) -> Seq<u8> {
    if b == 0 {
        seq![0x54u8, 0x53, 0x41, 0x35, 0x30]
    } else if b == 1 {
        seq![0x54u8, 0x53, 0x41, 0x34, 0x35]
    } else if b == 2 {
        seq![0x54u8, 0x53, 0x41, 0x33, 0x35]
    } else if b == 3 {
        seq![0x54u8, 0x53, 0x41, 0x32, 0x35]
    } else if b == 4 {
        seq![0x54u8, 0x53, 0x41, 0x31, 0x35]
    } else if b == 5 {
        seq![0x54u8, 0x53, 0x41, 0x30, 0x35]
    } else if b == 6 {
        seq![0x54u8, 0x53, 0x45, 0x39, 0x39]
    } else if b == 7 {
        seq![0x54u8, 0x53, 0x42, 0x34, 0x30]
    } else if b == 8 {
        seq![0x54u8, 0x53, 0x42, 0x33, 0x30]
    } else {
        seq![0x54u8, 0x53, 0x42, 0x32, 0x30]
    }
}

/// The A-button token: "TSX99" pressed, "TSX00" released.
pub open spec fn spec_button_a_token(pressed: bool) -> Seq<u8> {
    if pressed {
        seq![0x54u8, 0x53, 0x58, 0x39, 0x39]
    } else {
        seq![0x54u8, 0x53, 0x58, 0x30, 0x30]
    }
}

/// The B-button token: "TSY99" pressed, "TSY00" released.
pub open spec fn spec_button_b_token(pressed: bool) -> Seq<u8> {
    if pressed {
        seq![0x54u8, 0x53, 0x59, 0x39, 0x39]
    } else {
        seq![0x54u8, 0x53, 0x59, 0x30, 0x30]
    }
}

/// The C-button token: "TSZ99" pressed, "TSZ00" released.
pub open spec fn spec_button_c_token(pressed: bool) -> Seq<u8> {
    if pressed {
        seq![0x54u8, 0x53, 0x5A, 0x39, 0x39]
    } else {
        seq![0x54u8, 0x53, 0x5A, 0x30, 0x30]
    }
}

/// The S-button token, driven by the D button: "TSK99" pressed, "TSK00"
/// released.
pub open spec fn spec_button_s_token(pressed: bool) -> Seq<u8> {
    if pressed {
        seq![0x54u8, 0x53, 0x4B, 0x39, 0x39]
    } else {
        seq![0x54u8, 0x53, 0x4B, 0x30, 0x30]
    }
}

/// The handle token: a nonzero brake overrides the power lookup.
pub open spec fn spec_handle_token(s: ControllerState) -> Seq<u8> {
    if s.brake > 0 {
        spec_brake_token(s.brake as int)
    } else {
        spec_power_token(s.power as int)
    }
}

/// The full report for one snapshot: handle, A, B, C and S tokens, each
/// closed by a carriage return.
pub open spec fn spec_update(s: ControllerState) -> Seq<u8> {
    spec_handle_token(s) + seq![0x0Du8] + spec_button_a_token(s.button_a) + seq![0x0Du8]
        + spec_button_b_token(s.button_b) + seq![0x0Du8] + spec_button_c_token(s.button_c)
        + seq![0x0Du8] + spec_button_s_token(s.button_d) + seq![0x0Du8]
}

fn power_token(p: u8) -> (r: [u8; 5])
    requires
        p <= 5,
    ensures
        r@ == spec_power_token(p as int),
{
    match p {
        0 => [0x54, 0x53, 0x41, 0x35, 0x30],
        1 => [0x54, 0x53, 0x41, 0x35, 0x35],
        2 => [0x54, 0x53, 0x41, 0x36, 0x35],
        3 => [0x54, 0x53, 0x41, 0x37, 0x35],
        4 => [0x54, 0x53, 0x41, 0x38, 0x35],
        _ => [0x54, 0x53, 0x41, 0x39, 0x35],
    }
}

fn brake_token(b: u8) -> (r: [u8; 5])
    requires
        b <= 9,
    ensures
        r@ == spec_brake_token(b as int),
{
    match b {
        0 => [0x54, 0x53, 0x41, 0x35, 0x30],
        1 => [0x54, 0x53, 0x41, 0x34, 0x35],
        2 => [0x54, 0x53, 0x41, 0x33, 0x35],
        3 => [0x54, 0x53, 0x41, 0x32, 0x35],
        4 => [0x54, 0x53, 0x41, 0x31, 0x35],
        5 => [0x54, 0x53, 0x41, 0x30, 0x35],
        6 => [0x54, 0x53, 0x45, 0x39, 0x39],
        7 => [0x54, 0x53, 0x42, 0x34, 0x30],
        8 => [0x54, 0x53, 0x42, 0x33, 0x30],
        _ => [0x54, 0x53, 0x42, 0x32, 0x30],
    }
}

/// Append one token and its closing carriage return to the report.
fn push_token(out: &mut Vec<u8>, token: &[u8; 5])
    ensures
        final(out)@ == old(out)@ + token@ + seq![0x0Du8],
{
    out.push(token[0]);
    out.push(token[1]);
    out.push(token[2]);
    out.push(token[3]);
    out.push(token[4]);
    out.push(0x0D);
    proof {
        assert(final(out)@ =~= old(out)@ + token@ + seq![0x0Du8]);
    }
}

/// Encode one report. This model never consumes a chord, so the snapshot
/// is left as it was.
pub fn update_gadget(state: &mut ControllerState) -> (report: Vec<u8>)
    requires
        wf(*old(state)),
    ensures
        *final(state) == *old(state),
        report@ == spec_update(*old(state)),
{
    // Calculate data for handles
    let mut handle = power_token(state.power);
    if state.brake > 0 {
        handle = brake_token(state.brake);
    }

    // Calculate data for buttons
    let button_a: [u8; 5] = if state.button_a {
        [0x54, 0x53, 0x58, 0x39, 0x39]
    } else {
        [0x54, 0x53, 0x58, 0x30, 0x30]
    };
    let button_b: [u8; 5] = if state.button_b {
        [0x54, 0x53, 0x59, 0x39, 0x39]
    } else {
        [0x54, 0x53, 0x59, 0x30, 0x30]
    };
    let button_c: [u8; 5] = if state.button_c {
        [0x54, 0x53, 0x5A, 0x39, 0x39]
    } else {
        [0x54, 0x53, 0x5A, 0x30, 0x30]
    };
    let button_s: [u8; 5] = if state.button_d {
        [0x54, 0x53, 0x4B, 0x39, 0x39]
    } else {
        [0x54, 0x53, 0x4B, 0x30, 0x30]
    };

    // Assemble the report
    let mut report: Vec<u8> = Vec::new();
    push_token(&mut report, &handle);
    push_token(&mut report, &button_a);
    push_token(&mut report, &button_b);
    push_token(&mut report, &button_c);
    push_token(&mut report, &button_s);
    proof {
        assert(report@ =~= spec_update(*state));
    }
    report
}

/// The configuration-descriptor block: two identical serial-bridge
/// interface sets with bulk-in, bulk-out and interrupt-in endpoints.
pub open spec fn spec_descriptors() -> Seq<u8> {
    seq![
        0x01u8, 0x00, 0x00, 0x00, 0x4C, 0x00, 0x00, 0x00, 0x04, 0x00, 0x00, 0x00, 0x04, 0x00,
        0x00, 0x00, 0x09, 0x04, 0x00, 0x00, 0x03, 0xFF, 0x00, 0x00, 0x00, 0x07, 0x05, 0x82, 0x02,
        0x20, 0x00, 0x00, 0x07, 0x05, 0x02, 0x02, 0x20, 0x00, 0x00, 0x07, 0x05, 0x81, 0x03, 0x08,
        0x00, 0x01, 0x09, 0x04, 0x00, 0x00, 0x03, 0xFF, 0x00, 0x00, 0x00, 0x07, 0x05, 0x82, 0x02,
        0x20, 0x00, 0x00, 0x07, 0x05, 0x02, 0x02, 0x20, 0x00, 0x00, 0x07, 0x05, 0x81, 0x03, 0x08,
        0x00, 0x01,
    ]
}

/// The raw configuration-descriptor byte block.
pub fn descriptors() -> (r: Vec<u8>)
    ensures
        r@ == spec_descriptors(),
{
    let block: [u8; 76] = [
        0x01, 0x00, 0x00, 0x00, 0x4C, 0x00, 0x00, 0x00, 0x04, 0x00, 0x00, 0x00, 0x04, 0x00, 0x00,
        0x00, 0x09, 0x04, 0x00, 0x00, 0x03, 0xFF, 0x00, 0x00, 0x00, 0x07, 0x05, 0x82, 0x02, 0x20,
        0x00, 0x00, 0x07, 0x05, 0x02, 0x02, 0x20, 0x00, 0x00, 0x07, 0x05, 0x81, 0x03, 0x08, 0x00,
        0x01, 0x09, 0x04, 0x00, 0x00, 0x03, 0xFF, 0x00, 0x00, 0x00, 0x07, 0x05, 0x82, 0x02, 0x20,
        0x00, 0x00, 0x07, 0x05, 0x02, 0x02, 0x20, 0x00, 0x00, 0x07, 0x05, 0x81, 0x03, 0x08, 0x00,
        0x01,
    ];
    let r = vstd::slice::slice_to_vec(block.as_slice());
    proof {
        assert(r@ =~= spec_descriptors());
    }
    r
}

/// The USB identity this model registers itself with.
pub fn device_descriptor() -> (d: DeviceDescriptor)
    ensures
        d.b_device_class == 0x02,
        d.b_device_sub_class == 0x0,
        d.id_vendor == 0x067B,
        d.id_product == 0x2303,
        d.bcd_device == 0x0102,
        d.i_manufacturer@ == "TAITO"@,
        d.i_product@ == "Densha de Go! Plug & Play (Master Controller II mode)"@,
        d.i_serial_number@ == "VOK-00106"@,
{
    DeviceDescriptor {
        b_device_class: 0x02,
        b_device_sub_class: 0x0,
        id_vendor: 0x067B,
        id_product: 0x2303,
        bcd_device: 0x0102,
        i_manufacturer: "TAITO",
        i_product: "Densha de Go! Plug & Play (Master Controller II mode)",
        i_serial_number: "VOK-00106",
    }
}

/// A nonzero brake always overrides the power lookup in the handle token.
pub proof fn lemma_brake_overrides_power(s: ControllerState)
    requires
        wf(s),
    ensures
        s.brake > 0 ==> spec_update(s).subrange(0, 5) == spec_brake_token(s.brake as int),
        s.brake == 0 ==> spec_update(s).subrange(0, 5) == spec_power_token(s.power as int),
{
    assert(spec_update(s).subrange(0, 5) =~= spec_handle_token(s));
}

} // verus!
