//! Dreamcast two-handle controller.
//!
//! Six-byte report: two constant 0x80 axis bytes and a 32-bit
//! little-endian button mask. This model has no analog channel: the power
//! and brake notches are synthesized as virtual button bits, one ladder
//! code per notch.

use vstd::prelude::*;

use crate::emulated::DeviceDescriptor;
use crate::physical::ControllerState;
use crate::physical::wf;

verus! {

/// Power ladder bits in the mask's second byte: the two low power
/// "buttons" (0x40 and 0x80 lanes).
pub open spec fn spec_power_low(p: int) -> u8 {
    if p == 0 {
        0x80
    } else if p == 1 {
        0x40
    } else if p == 2 {
        0x00
    } else if p == 3 {
        0xC0
    } else if p == 4 {
        0x80
    } else {
        0x40
    }
}

/// The third power "button", carried in the mask's third byte: pressed
/// for the low power notches.
pub open spec fn spec_power_high(p: int) -> u8 {
    if p == 0 || p == 1 || p == 2 {
        0x01
    } else {
        0x00
    }
}

/// Brake ladder bits in the mask's second byte: four brake "buttons" on
/// the 0x04 to 0x20 lanes, with the emergency notch releasing them all.
pub open spec fn spec_brake_low(b: int) -> u8 {
    if b == 0 {
        0x38
    } else if b == 1 {
        0x34
    } else if b == 2 {
        0x30
    } else if b == 3 {
        0x2C
    } else if b == 4 {
        0x28
    } else if b == 5 {
        0x24
    } else if b == 6 {
        0x20
    } else if b == 7 {
        0x1C
    } else if b == 8 {
        0x18
    } else {
        0x00
    }
}

fn power_low(p: u8) -> (r: u8)
    requires
        p <= 5,
    ensures
        r == spec_power_low(p as int),
{
    match p {
        0 => 0x80,
        1 => 0x40,
        2 => 0x00,
        3 => 0xC0,
        4 => 0x80,
        _ => 0x40,
    }
}

fn power_high(p: u8) -> (r: u8)
    requires
        p <= 5,
    ensures
        r == spec_power_high(p as int),
{
    match p {
        0 => 0x01,
        1 => 0x01,
        2 => 0x01,
        _ => 0x00,
    }
}

fn brake_low(b: u8) -> (r: u8)
    requires
        b <= 9,
    ensures
        r == spec_brake_low(b as int),
{
    match b {
        0 => 0x38,
        1 => 0x34,
        2 => 0x30,
        3 => 0x2C,
        4 => 0x28,
        5 => 0x24,
        6 => 0x20,
        7 => 0x1C,
        8 => 0x18,
        _ => 0x00,
    }
}

/// First mask byte: A, B, C on bits 0 to 2.
pub open spec fn spec_buttons0(s: ControllerState) -> u8 {
    ((if s.button_a {
        1int
    } else {
        0int
    }) + (if s.button_b {
        2int
    } else {
        0int
    }) + (if s.button_c {
        4int
    } else {
        0int
    })) as u8
}

/// Second mask byte: select and start on bits 0 and 1, then the brake
/// and power ladders.
pub open spec fn spec_buttons1(s: ControllerState) -> u8 {
    ((if s.button_select {
        1int
    } else {
        0int
    }) + (if s.button_start {
        2int
    } else {
        0int
    }) + spec_brake_low(s.brake as int) + spec_power_low(s.power as int)) as u8
}

/// The six-byte report for one snapshot.
pub open spec fn spec_update(s: ControllerState) -> Seq<u8> {
    seq![
        0x80u8,
        0x80u8,
        spec_buttons0(s),
        spec_buttons1(s),
        spec_power_high(s.power as int),
        0x00u8,
    ]
}

/// First mask byte for one snapshot.
fn buttons0(state: &ControllerState) -> (r: u8)
    ensures
        r == spec_buttons0(*state),
{
    (if state.button_a {
        1
    } else {
        0
    }) + (if state.button_b {
        2
    } else {
        0
    }) + (if state.button_c {
        4
    } else {
        0
    })
}

/// Second mask byte for one snapshot.
fn buttons1(state: &ControllerState) -> (r: u8)
    requires
        wf(*state),
    ensures
        r == spec_buttons1(*state),
{
    (if state.button_select {
        1
    } else {
        0
    }) + (if state.button_start {
        2
    } else {
        0
    }) + brake_low(state.brake) + power_low(state.power)
}

/// Encode one report. This model never consumes a chord, so the snapshot
/// is left as it was.
pub fn update_gadget(state: &mut ControllerState) -> (report: Vec<u8>)
    requires
        wf(*old(state)),
    ensures
        *final(state) == *old(state),
        report@ == spec_update(*old(state)),
{
    // Calculate data for handles and buttons
    let b0 = buttons0(state);
    let b1 = buttons1(state);
    let b2 = power_high(state.power);

    // Assemble the report
    let data: [u8; 6] = [0x80, 0x80, b0, b1, b2, 0x00];
    let report = vstd::slice::slice_to_vec(data.as_slice());
    proof {
        assert(report@ =~= spec_update(*state));
    }
    report
}

/// The configuration-descriptor block: three descriptor sets announcing
/// the 51-byte report descriptor.
pub open spec fn spec_descriptors() -> Seq<u8> {
    seq![
        0x01u8, 0x00, 0x00, 0x00, 0x42, 0x00, 0x00, 0x00, 0x03, 0x00, 0x00, 0x00, 0x03, 0x00,
        0x00, 0x00, 0x09, 0x04, 0x00, 0x00, 0x01, 0x03, 0x00, 0x00, 0x00, 0x09, 0x21, 0x11, 0x01,
        0x00, 0x01, 0x22, 0x33, 0x00, 0x07, 0x05, 0x81, 0x03, 0x08, 0x00, 0x05, 0x09, 0x04, 0x00,
        0x00, 0x01, 0x03, 0x00, 0x00, 0x00, 0x09, 0x21, 0x11, 0x01, 0x00, 0x01, 0x22, 0x33, 0x00,
        0x07, 0x05, 0x81, 0x03, 0x08, 0x00, 0x05,
    ]
}

/// The raw configuration-descriptor byte block.
pub fn descriptors() -> (r: Vec<u8>)
    ensures
        r@ == spec_descriptors(),
{
    let block: [u8; 66] = [
        0x01, 0x00, 0x00, 0x00, 0x42, 0x00, 0x00, 0x00, 0x03, 0x00, 0x00, 0x00, 0x03, 0x00, 0x00,
        0x00, 0x09, 0x04, 0x00, 0x00, 0x01, 0x03, 0x00, 0x00, 0x00, 0x09, 0x21, 0x11, 0x01, 0x00,
        0x01, 0x22, 0x33, 0x00, 0x07, 0x05, 0x81, 0x03, 0x08, 0x00, 0x05, 0x09, 0x04, 0x00, 0x00,
        0x01, 0x03, 0x00, 0x00, 0x00, 0x09, 0x21, 0x11, 0x01, 0x00, 0x01, 0x22, 0x33, 0x00, 0x07,
        0x05, 0x81, 0x03, 0x08, 0x00, 0x05,
    ];
    let r = vstd::slice::slice_to_vec(block.as_slice());
    proof {
        assert(r@ =~= spec_descriptors());
    }
    r
}

/// The HID report descriptor: a joystick with two 8-bit axes and
/// seventeen buttons.
pub open spec fn spec_hid_report_descriptor() -> Seq<u8> {
    seq![
        0x05u8, 0x01, 0x09, 0x04, 0xA1, 0x01, 0x09, 0x01, 0xA1, 0x00, 0x09, 0x30, 0x09, 0x31,
        0x15, 0x00, 0x26, 0xFF, 0x00, 0x75, 0x08, 0x95, 0x02, 0x81, 0x02, 0xC0, 0x05, 0x09, 0x19,
        0x01, 0x29, 0x11, 0x15, 0x00, 0x25, 0x01, 0x35, 0x00, 0x45, 0x01, 0x75, 0x01, 0x95, 0x11,
        0x81, 0x02, 0x95, 0x0F, 0x81, 0x01, 0xC0,
    ]
}

/// The raw HID report descriptor bytes.
pub fn hid_report_descriptor() -> (r: Vec<u8>)
    ensures
        r@ == spec_hid_report_descriptor(),
{
    let block: [u8; 51] = [
        0x05, 0x01, 0x09, 0x04, 0xA1, 0x01, 0x09, 0x01, 0xA1, 0x00, 0x09, 0x30, 0x09, 0x31, 0x15,
        0x00, 0x26, 0xFF, 0x00, 0x75, 0x08, 0x95, 0x02, 0x81, 0x02, 0xC0, 0x05, 0x09, 0x19, 0x01,
        0x29, 0x11, 0x15, 0x00, 0x25, 0x01, 0x35, 0x00, 0x45, 0x01, 0x75, 0x01, 0x95, 0x11, 0x81,
        0x02, 0x95, 0x0F, 0x81, 0x01, 0xC0,
    ];
    let r = vstd::slice::slice_to_vec(block.as_slice());
    proof {
        assert(r@ =~= spec_hid_report_descriptor());
    }
    r
}

/// The USB identity this model registers itself with.
pub fn device_descriptor() -> (d: DeviceDescriptor)
    ensures
        d.b_device_class == 0x0,
        d.b_device_sub_class == 0x0,
        d.id_vendor == 0x1209,
        d.id_product == 0xD500,
        d.bcd_device == 0x0500,
        d.i_manufacturer@ == "TAITO"@,
        d.i_product@ == "Densha de Go! Plug & Play (DC Two Handle mode)"@,
        d.i_serial_number@ == "TCPP-20004"@,
{
    DeviceDescriptor {
        b_device_class: 0x0,
        b_device_sub_class: 0x0,
        id_vendor: 0x1209,
        id_product: 0xD500,
        bcd_device: 0x0500,
        i_manufacturer: "TAITO",
        i_product: "Densha de Go! Plug & Play (DC Two Handle mode)",
        i_serial_number: "TCPP-20004",
    }
}

/// Both notch ladders appear in full in the mask: every power notch and
/// every brake notch has its exact documented ladder code.
pub proof fn lemma_notch_ladders(s: ControllerState)
    requires
        wf(s),
    ensures
        spec_update(s)[3] as int % 4 == (if s.button_select { 1int } else { 0int }) + (
        if s.button_start {
            2int
        } else {
            0int
        }),
        spec_update(s)[3] / 4 % 16 == spec_brake_low(s.brake as int) / 4,
        spec_update(s)[3] / 64 == spec_power_low(s.power as int) / 64,
        spec_update(s)[4] == spec_power_high(s.power as int),
{
}

} // verus!
