//! Shinkansen two-handle controller.
//!
//! Six-byte report: the brake and power analog levels, a constant 0xFF,
//! the hat switch (idle 0x8), one button byte, and a trailing zero.

use vstd::prelude::*;

use crate::emulated::spec_hat_position;
use crate::emulated::hat_position;
use crate::emulated::DeviceDescriptor;
use crate::physical::ControllerState;
use crate::physical::wf;

verus! {

/// Analog level for each power notch.
pub open spec fn spec_power_notch(p: int) -> u8 {
    if p == 0 {
        0x12
    } else if p == 1 {
        0x36
    } else if p == 2 {
        0x5A
    } else if p == 3 {
        0x90
    } else if p == 4 {
        0xC6
    } else {
        0xFB
    }
}

/// Analog level for each brake notch.
pub open spec fn spec_brake_notch(b: int) -> u8 {
    if b == 0 {
        0x1C
    } else if b == 1 {
        0x38
    } else if b == 2 {
        0x54
    } else if b == 3 {
        0x70
    } else if b == 4 {
        0x8B
    } else if b == 5 {
        0xA7
    } else if b == 6 {
        0xC3
    } else if b == 7 {
        0xDF
    } else if b == 8 {
        0xDF
    } else {
        0xFB
    }
}

fn power_notch(p: u8) -> (r: u8)
    requires
        p <= 5,
    ensures
        r == spec_power_notch(p as int),
{
    match p {
        0 => 0x12,
        1 => 0x36,
        2 => 0x5A,
        3 => 0x90,
        4 => 0xC6,
        _ => 0xFB,
    }
}

fn brake_notch(b: u8) -> (r: u8)
    requires
        b <= 9,
    ensures
        r == spec_brake_notch(b as int),
{
    match b {
        0 => 0x1C,
        1 => 0x38,
        2 => 0x54,
        3 => 0x70,
        4 => 0x8B,
        5 => 0xA7,
        6 => 0xC3,
        7 => 0xDF,
        8 => 0xDF,
        _ => 0xFB,
    }
}

/// Button byte: D, C, B, A, select, start on bits 0 to 5.
pub open spec fn spec_buttons(s: ControllerState) -> u8 {
    ((if s.button_d {
        1int
    } else {
        0int
    }) + (if s.button_c {
        2int
    } else {
        0int
    }) + (if s.button_b {
        4int
    } else {
        0int
    }) + (if s.button_a {
        8int
    } else {
        0int
    }) + (if s.button_select {
        16int
    } else {
        0int
    }) + (if s.button_start {
        32int
    } else {
        0int
    })) as u8
}

/// The six-byte report for one snapshot.
pub open spec fn spec_update(s: ControllerState) -> Seq<u8> {
    seq![
        spec_brake_notch(s.brake as int),
        spec_power_notch(s.power as int),
        0xFFu8,
        spec_hat_position(s.button_up, s.button_down, s.button_left, s.button_right, 0x8),
        spec_buttons(s),
        0x0u8,
    ]
}

/// Button byte for one snapshot.
fn buttons(state: &ControllerState) -> (r: u8)
    ensures
        r == spec_buttons(*state),
{
    (if state.button_d {
        1
    } else {
        0
    }) + (if state.button_c {
        2
    } else {
        0
    }) + (if state.button_b {
        4
    } else {
        0
    }) + (if state.button_a {
        8
    } else {
        0
    }) + (if state.button_select {
        16
    } else {
        0
    }) + (if state.button_start {
        32
    } else {
        0
    })
}

/// Encode one report. This model never consumes a chord, so the snapshot
/// is left as it was.
pub fn update_gadget(state: &mut ControllerState) -> (report: Vec<u8>)
    requires
        wf(*old(state)),
    ensures
        *final(state) == *old(state),
        report@ == spec_update(*old(state)),
{
    // Calculate data for handles
    let power = power_notch(state.power);
    let brake = brake_notch(state.brake);

    // Calculate data for buttons
    let btns = buttons(state);

    // Calculate data for D-pad
    let dpad = hat_position(
        state.button_up,
        state.button_down,
        state.button_left,
        state.button_right,
        0x8,
    );

    // Assemble the report
    let data: [u8; 6] = [brake, power, 0xFF, dpad, btns, 0x0];
    let report = vstd::slice::slice_to_vec(data.as_slice());
    proof {
        assert(report@ =~= spec_update(*state));
    }
    report
}

/// The configuration-descriptor block: two identical interface and
/// interrupt-in endpoint descriptor sets.
pub open spec fn spec_descriptors() -> Seq<u8> {
    seq![
        0x01u8, 0x00, 0x00, 0x00, 0x30, 0x00, 0x00, 0x00, 0x02, 0x00, 0x00, 0x00, 0x02, 0x00,
        0x00, 0x00, 0x09, 0x04, 0x00, 0x00, 0x01, 0x03, 0x00, 0x00, 0x00, 0x07, 0x05, 0x81, 0x03,
        0x08, 0x00, 0x14, 0x09, 0x04, 0x00, 0x00, 0x01, 0x03, 0x00, 0x00, 0x00, 0x07, 0x05, 0x81,
        0x03, 0x08, 0x00, 0x14,
    ]
}

/// The raw configuration-descriptor byte block.
pub fn descriptors() -> (r: Vec<u8>)
    ensures
        r@ == spec_descriptors(),
{
    let block: [u8; 48] = [
        0x01, 0x00, 0x00, 0x00, 0x30, 0x00, 0x00, 0x00, 0x02, 0x00, 0x00, 0x00, 0x02, 0x00, 0x00,
        0x00, 0x09, 0x04, 0x00, 0x00, 0x01, 0x03, 0x00, 0x00, 0x00, 0x07, 0x05, 0x81, 0x03, 0x08,
        0x00, 0x14, 0x09, 0x04, 0x00, 0x00, 0x01, 0x03, 0x00, 0x00, 0x00, 0x07, 0x05, 0x81, 0x03,
        0x08, 0x00, 0x14,
    ];
    let r = vstd::slice::slice_to_vec(block.as_slice());
    proof {
        assert(r@ =~= spec_descriptors());
    }
    r
}

/// The USB identity this model registers itself with.
pub fn device_descriptor() -> (d: DeviceDescriptor)
    ensures
        d.b_device_class == 0xFF,
        d.b_device_sub_class == 0x5,
        d.id_vendor == 0x0AE4,
        d.id_product == 0x0005,
        d.bcd_device == 0x0102,
        d.i_manufacturer@ == "TAITO"@,
        d.i_product@ == "Densha de Go! Plug & Play (Shinkansen)"@,
        d.i_serial_number@ == "TCPP20011"@,
{
    DeviceDescriptor {
        b_device_class: 0xFF,
        b_device_sub_class: 0x5,
        id_vendor: 0x0AE4,
        id_product: 0x0005,
        bcd_device: 0x0102,
        i_manufacturer: "TAITO",
        i_product: "Densha de Go! Plug & Play (Shinkansen)",
        i_serial_number: "TCPP20011",
    }
}

/// Every notch maps to its exact documented analog level: the report
/// carries the brake level at index 0 and the power level at index
/// 1, each a literal table lookup.
pub proof fn lemma_notch_bytes(s: ControllerState)
    requires
        wf(s),
    ensures
        spec_update(s)[0] == spec_brake_notch(s.brake as int),
        spec_update(s)[1] == spec_power_notch(s.power as int),
{
}

} // verus!
