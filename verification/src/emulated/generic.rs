//! PlayStation-compatible one-handle controller.
//!
//! Forty-nine-byte gamepad report: a report ID, two button bytes, the
//! power and brake analog levels on their own axes (no override — this is
//! the analog model where brake 0 stays on its own table entry), and the
//! pressure bytes for the directions and action buttons. The model also
//! answers two vendor init requests on the control channel with canned
//! 64-byte reports.

use vstd::prelude::*;

use crate::emulated::DeviceDescriptor;
use crate::physical::ControllerState;
use crate::physical::wf;

verus! {

/// Axis level for each power notch.
pub open spec fn spec_power_notch(p: int) -> u8 {
    if p == 0 {
        0x80
    } else if p == 1 {
        0x94
    } else if p == 2 {
        0xAC
    } else if p == 3 {
        0xCC
    } else if p == 4 {
        0xE4
    } else {
        0xFF
    }
}

/// Axis level for each brake notch.
pub open spec fn spec_brake_notch(b: int) -> u8 {
    if b == 0 {
        0x80
    } else if b == 1 {
        0x91
    } else if b == 2 {
        0x9F
    } else if b == 3 {
        0xAD
    } else if b == 4 {
        0xBB
    } else if b == 5 {
        0xC9
    } else if b == 6 {
        0xD7
    } else if b == 7 {
        0xE5
    } else if b == 8 {
        0xF3
    } else {
        0xFF
    }
}

fn power_notch(p: u8) -> (r: u8)
    requires
        p <= 5,
    ensures
        r == spec_power_notch(p as int),
{
    match p {
        0 => 0x80,
        1 => 0x94,
        2 => 0xAC,
        3 => 0xCC,
        4 => 0xE4,
        _ => 0xFF,
    }
}

fn brake_notch(b: u8) -> (r: u8)
    requires
        b <= 9,
    ensures
        r == spec_brake_notch(b as int),
{
    match b {
        0 => 0x80,
        1 => 0x91,
        2 => 0x9F,
        3 => 0xAD,
        4 => 0xBB,
        5 => 0xC9,
        6 => 0xD7,
        7 => 0xE5,
        8 => 0xF3,
        _ => 0xFF,
    }
}

/// First button byte: select, start and the four directions on bits 0
/// and 3 to 7.
pub open spec fn spec_buttons1(s: ControllerState) -> u8 {
    ((if s.button_select {
        1int
    } else {
        0int
    }) + (if s.button_start {
        8int
    } else {
        0int
    }) + (if s.button_up {
        16int
    } else {
        0int
    }) + (if s.button_right {
        32int
    } else {
        0int
    }) + (if s.button_down {
        64int
    } else {
        0int
    }) + (if s.button_left {
        128int
    } else {
        0int
    })) as u8
}

/// Second button byte: triangle, circle, cross, square on bits 4 to 7
/// (from the D, C, B and A buttons).
pub open spec fn spec_buttons2(s: ControllerState) -> u8 {
    ((if s.button_d {
        16int
    } else {
        0int
    }) + (if s.button_c {
        32int
    } else {
        0int
    }) + (if s.button_b {
        64int
    } else {
        0int
    }) + (if s.button_a {
        128int
    } else {
        0int
    })) as u8
}

/// A digital button's pressure byte: fully pressed or fully released.
pub open spec fn spec_pressure(pressed: bool) -> u8 {
    if pressed {
        0xFF
    } else {
        0x0
    }
}

/// The forty-nine-byte report for one snapshot.
pub open spec fn spec_update(s: ControllerState) -> Seq<u8> {
    seq![
        0x1u8,
        0x0u8,
        spec_buttons1(s),
        spec_buttons2(s),
        0x0u8,
        0x0u8,
        spec_power_notch(s.power as int),
        spec_brake_notch(s.brake as int),
        0x80u8,
        0x80u8,
        0x0u8,
        0x0u8,
        0x0u8,
        0x0u8,
        spec_pressure(s.button_up),
        spec_pressure(s.button_right),
        spec_pressure(s.button_down),
        spec_pressure(s.button_left),
        0x0u8,
        0x0u8,
        0x0u8,
        0x0u8,
        spec_pressure(s.button_d),
        spec_pressure(s.button_c),
        spec_pressure(s.button_b),
        spec_pressure(s.button_a),
        0x0u8,
        0x0u8,
        0x0u8,
        0x3u8,
        0xEFu8,
        0x14u8,
        0x0u8,
        0x0u8,
        0x0u8,
        0x0u8,
        0x23u8,
        0x1Au8,
        0x77u8,
        0x1u8,
        0x81u8,
        0x1u8,
        0xFEu8,
        0x1u8,
        0xFEu8,
        0x1u8,
        0xFEu8,
        0x1u8,
        0xFEu8,
    ]
}

/// First button byte for one snapshot.
fn buttons1(state: &ControllerState) -> (r: u8)
    ensures
        r == spec_buttons1(*state),
{
    (if state.button_select {
        1
    } else {
        0
    }) + (if state.button_start {
        8
    } else {
        0
    }) + (if state.button_up {
        16
    } else {
        0
    }) + (if state.button_right {
        32
    } else {
        0
    }) + (if state.button_down {
        64
    } else {
        0
    }) + (if state.button_left {
        128
    } else {
        0
    })
}

/// Second button byte for one snapshot.
fn buttons2(state: &ControllerState) -> (r: u8)
    ensures
        r == spec_buttons2(*state),
{
    (if state.button_d {
        16
    } else {
        0
    }) + (if state.button_c {
        32
    } else {
        0
    }) + (if state.button_b {
        64
    } else {
        0
    }) + (if state.button_a {
        128
    } else {
        0
    })
}

/// A digital button's pressure byte.
fn pressure(pressed: bool) -> (r: u8)
    ensures
        r == spec_pressure(pressed),
{
    if pressed {
        0xFF
    } else {
        0x0
    }
}

/// Encode one report. This model never consumes a chord, so the snapshot
/// is left as it was.
pub fn update_gadget(state: &mut ControllerState) -> (report: Vec<u8>)
    requires
        wf(*old(state)),
    ensures
        *final(state) == *old(state),
        report@ == spec_update(*old(state)),
{
    // Calculate data for handles
    let power = power_notch(state.power);
    let brake = brake_notch(state.brake);

    // Calculate data for buttons
    let b1 = buttons1(state);
    let b2 = buttons2(state);
    let btn_up = pressure(state.button_up);
    let btn_right = pressure(state.button_right);
    let btn_down = pressure(state.button_down);
    let btn_left = pressure(state.button_left);
    let btn_triangle = pressure(state.button_d);
    let btn_circle = pressure(state.button_c);
    let btn_cross = pressure(state.button_b);
    let btn_square = pressure(state.button_a);

    // Assemble the report
    let data: [u8; 49] = [
        0x1,
        0x0,
        b1,
        b2,
        0x0,
        0x0,
        power,
        brake,
        0x80,
        0x80,
        0x0,
        0x0,
        0x0,
        0x0,
        btn_up,
        btn_right,
        btn_down,
        btn_left,
        0x0,
        0x0,
        0x0,
        0x0,
        btn_triangle,
        btn_circle,
        btn_cross,
        btn_square,
        0x0,
        0x0,
        0x0,
        0x3,
        0xEF,
        0x14,
        0x0,
        0x0,
        0x0,
        0x0,
        0x23,
        0x1A,
        0x77,
        0x1,
        0x81,
        0x1,
        0xFE,
        0x1,
        0xFE,
        0x1,
        0xFE,
        0x1,
        0xFE,
    ];
    let report = vstd::slice::slice_to_vec(data.as_slice());
    proof {
        assert(report@ =~= spec_update(*state));
    }
    report
}

/// The canned response to the first vendor init request.
pub open spec fn spec_f2_report() -> Seq<u8> {
    seq![
        0xF2u8, 0xFF, 0xFF, 0x0, 0x0, 0x6, 0xF5, 0x48, 0xE2, 0x49, 0x0, 0x3, 0x50, 0x81, 0xD8,
        0x1, 0x8A, 0x13, 0x0, 0x0, 0x0, 0x0, 0x4, 0x0, 0x2, 0x2, 0x2, 0x2, 0x0, 0x0, 0x0, 0x4,
        0x4, 0x4, 0x4, 0x0, 0x0, 0x4, 0x0, 0x1, 0x2, 0x7, 0x0, 0x17, 0x0, 0x0, 0x0, 0x0, 0x0,
        0x0, 0x0, 0x0, 0x0, 0x0, 0x0, 0x0, 0x0, 0x0, 0x0, 0x0, 0x0, 0x0, 0x0, 0x0,
    ]
}

/// The canned response to the second vendor init request.
pub open spec fn spec_f5_report() -> Seq<u8> {
    seq![
        0x1u8, 0x0, 0x0, 0x23, 0x6, 0x7C, 0xB9, 0xB, 0xE2, 0x49, 0x0, 0x3, 0x50, 0x81, 0xD8, 0x1,
        0x8A, 0x13, 0x0, 0x0, 0x0, 0x0, 0x4, 0x0, 0x2, 0x2, 0x2, 0x2, 0x0, 0x0, 0x0, 0x4, 0x4,
        0x4, 0x4, 0x0, 0x0, 0x4, 0x0, 0x1, 0x2, 0x7, 0x0, 0x17, 0x0, 0x0, 0x0, 0x0, 0x0, 0x0,
        0x0, 0x0, 0x0, 0x0, 0x0, 0x0, 0x0, 0x0, 0x0, 0x0, 0x0, 0x0, 0x0, 0x0,
    ]
}

/// What the model answers to a non-descriptor control request: the two
/// vendor init requests get their canned reports, anything else gets no
/// response.
pub open spec fn spec_ctrl_response(data: Seq<u8>) -> Option<Seq<u8>> {
    if data[1] == 1 && data[2] == 0xF2 {
        Some(spec_f2_report())
    } else if data[1] == 1 && data[2] == 0xF5 {
        Some(spec_f5_report())
    } else {
        None
    }
}

/// Answer one vendor control request: the bytes to write back on the
/// control channel, or nothing.
pub fn handle_ctrl_transfer(data: &[u8]) -> (r: Option<Vec<u8>>)
    requires
        data@.len() >= 3,
    ensures
        match r {
            Some(v) => spec_ctrl_response(data@) == Some(v@),
            None => spec_ctrl_response(data@) is None,
        },
{
    if *vstd::slice::slice_index_get(data, 1) == 1 && *vstd::slice::slice_index_get(data, 2)
        == 0xF2 {
        // Init 1
        let block: [u8; 64] = [
            0xF2, 0xFF, 0xFF, 0x0, 0x0, 0x6, 0xF5, 0x48, 0xE2, 0x49, 0x0, 0x3, 0x50, 0x81, 0xD8,
            0x1, 0x8A, 0x13, 0x0, 0x0, 0x0, 0x0, 0x4, 0x0, 0x2, 0x2, 0x2, 0x2, 0x0, 0x0, 0x0,
            0x4, 0x4, 0x4, 0x4, 0x0, 0x0, 0x4, 0x0, 0x1, 0x2, 0x7, 0x0, 0x17, 0x0, 0x0, 0x0, 0x0,
            0x0, 0x0, 0x0, 0x0, 0x0, 0x0, 0x0, 0x0, 0x0, 0x0, 0x0, 0x0, 0x0, 0x0, 0x0, 0x0,
        ];
        let r = vstd::slice::slice_to_vec(block.as_slice());
        proof {
            assert(r@ =~= spec_f2_report());
        }
        Some(r)
    } else if *vstd::slice::slice_index_get(data, 1) == 1 && *vstd::slice::slice_index_get(
        data,
        2,
    ) == 0xF5 {
        // Init 2
        let block: [u8; 64] = [
            0x1, 0x0, 0x0, 0x23, 0x6, 0x7C, 0xB9, 0xB, 0xE2, 0x49, 0x0, 0x3, 0x50, 0x81, 0xD8,
            0x1, 0x8A, 0x13, 0x0, 0x0, 0x0, 0x0, 0x4, 0x0, 0x2, 0x2, 0x2, 0x2, 0x0, 0x0, 0x0,
            0x4, 0x4, 0x4, 0x4, 0x0, 0x0, 0x4, 0x0, 0x1, 0x2, 0x7, 0x0, 0x17, 0x0, 0x0, 0x0, 0x0,
            0x0, 0x0, 0x0, 0x0, 0x0, 0x0, 0x0, 0x0, 0x0, 0x0, 0x0, 0x0, 0x0, 0x0, 0x0, 0x0,
        ];
        let r = vstd::slice::slice_to_vec(block.as_slice());
        proof {
            assert(r@ =~= spec_f5_report());
        }
        Some(r)
    } else {
        None
    }
}

/// The configuration-descriptor block: two identical interface, HID and
/// endpoint descriptor sets announcing the 148-byte report descriptor.
pub open spec fn spec_descriptors() -> Seq<u8> {
    seq![
        0x01u8, 0x00, 0x00, 0x00, 0x50, 0x00, 0x00, 0x00, 0x04, 0x00, 0x00, 0x00, 0x04, 0x00,
        0x00, 0x00, 0x09, 0x04, 0x00, 0x00, 0x02, 0x03, 0x00, 0x00, 0x00, 0x09, 0x21, 0x11, 0x01,
        0x00, 0x01, 0x22, 0x94, 0x00, 0x07, 0x05, 0x02, 0x03, 0x40, 0x00, 0x05, 0x07, 0x05, 0x81,
        0x03, 0x40, 0x00, 0x05, 0x09, 0x04, 0x00, 0x00, 0x02, 0x03, 0x00, 0x00, 0x00, 0x09, 0x21,
        0x11, 0x01, 0x00, 0x01, 0x22, 0x94, 0x00, 0x07, 0x05, 0x02, 0x03, 0x40, 0x00, 0x05, 0x07,
        0x05, 0x81, 0x03, 0x40, 0x00, 0x05,
    ]
}

/// The raw configuration-descriptor byte block.
pub fn descriptors() -> (r: Vec<u8>)
    ensures
        r@ == spec_descriptors(),
{
    let block: [u8; 80] = [
        0x01, 0x00, 0x00, 0x00, 0x50, 0x00, 0x00, 0x00, 0x04, 0x00, 0x00, 0x00, 0x04, 0x00, 0x00,
        0x00, 0x09, 0x04, 0x00, 0x00, 0x02, 0x03, 0x00, 0x00, 0x00, 0x09, 0x21, 0x11, 0x01, 0x00,
        0x01, 0x22, 0x94, 0x00, 0x07, 0x05, 0x02, 0x03, 0x40, 0x00, 0x05, 0x07, 0x05, 0x81, 0x03,
        0x40, 0x00, 0x05, 0x09, 0x04, 0x00, 0x00, 0x02, 0x03, 0x00, 0x00, 0x00, 0x09, 0x21, 0x11,
        0x01, 0x00, 0x01, 0x22, 0x94, 0x00, 0x07, 0x05, 0x02, 0x03, 0x40, 0x00, 0x05, 0x07, 0x05,
        0x81, 0x03, 0x40, 0x00, 0x05,
    ];
    let r = vstd::slice::slice_to_vec(block.as_slice());
    proof {
        assert(r@ =~= spec_descriptors());
    }
    r
}

/// The HID report descriptor announced by the configuration block.
pub open spec fn spec_hid_report_descriptor() -> Seq<u8> {
    seq![
        0x05u8, 0x01, 0x09, 0x04, 0xA1, 0x01, 0xA1, 0x02, 0x85, 0x01, 0x75, 0x08, 0x95, 0x01,
        0x15, 0x00, 0x26, 0xFF, 0x00, 0x81, 0x03, 0x75, 0x01, 0x95, 0x13, 0x15, 0x00, 0x25, 0x01,
        0x35, 0x00, 0x45, 0x01, 0x05, 0x09, 0x19, 0x01, 0x29, 0x13, 0x81, 0x02, 0x75, 0x01, 0x95,
        0x0D, 0x06, 0x00, 0xFF, 0x81, 0x03, 0x15, 0x00, 0x26, 0xFF, 0x00, 0x05, 0x01, 0x09, 0x01,
        0xA1, 0x00, 0x75, 0x08, 0x95, 0x04, 0x35, 0x00, 0x46, 0xFF, 0x00, 0x09, 0x30, 0x09, 0x31,
        0x09, 0x32, 0x09, 0x35, 0x81, 0x02, 0xC0, 0x05, 0x01, 0x75, 0x08, 0x95, 0x27, 0x09, 0x01,
        0x81, 0x02, 0x75, 0x08, 0x95, 0x30, 0x09, 0x01, 0x91, 0x02, 0x75, 0x08, 0x95, 0x30, 0x09,
        0x01, 0xB1, 0x02, 0xC0, 0xA1, 0x02, 0x85, 0x02, 0x75, 0x08, 0x95, 0x30, 0x09, 0x01, 0xB1,
        0x02, 0xC0, 0xA1, 0x02, 0x85, 0xEE, 0x75, 0x08, 0x95, 0x30, 0x09, 0x01, 0xB1, 0x02, 0xC0,
        0xA1, 0x02, 0x85, 0xEF, 0x75, 0x08, 0x95, 0x30, 0x09, 0x01, 0xB1, 0x02, 0xC0, 0xC0,
    ]
}

/// The raw HID report descriptor bytes.
pub fn hid_report_descriptor() -> (r: Vec<u8>)
    ensures
        r@ == spec_hid_report_descriptor(),
{
    let block: [u8; 148] = [
        0x05, 0x01, 0x09, 0x04, 0xA1, 0x01, 0xA1, 0x02, 0x85, 0x01, 0x75, 0x08, 0x95, 0x01, 0x15,
        0x00, 0x26, 0xFF, 0x00, 0x81, 0x03, 0x75, 0x01, 0x95, 0x13, 0x15, 0x00, 0x25, 0x01, 0x35,
        0x00, 0x45, 0x01, 0x05, 0x09, 0x19, 0x01, 0x29, 0x13, 0x81, 0x02, 0x75, 0x01, 0x95, 0x0D,
        0x06, 0x00, 0xFF, 0x81, 0x03, 0x15, 0x00, 0x26, 0xFF, 0x00, 0x05, 0x01, 0x09, 0x01, 0xA1,
        0x00, 0x75, 0x08, 0x95, 0x04, 0x35, 0x00, 0x46, 0xFF, 0x00, 0x09, 0x30, 0x09, 0x31, 0x09,
        0x32, 0x09, 0x35, 0x81, 0x02, 0xC0, 0x05, 0x01, 0x75, 0x08, 0x95, 0x27, 0x09, 0x01, 0x81,
        0x02, 0x75, 0x08, 0x95, 0x30, 0x09, 0x01, 0x91, 0x02, 0x75, 0x08, 0x95, 0x30, 0x09, 0x01,
        0xB1, 0x02, 0xC0, 0xA1, 0x02, 0x85, 0x02, 0x75, 0x08, 0x95, 0x30, 0x09, 0x01, 0xB1, 0x02,
        0xC0, 0xA1, 0x02, 0x85, 0xEE, 0x75, 0x08, 0x95, 0x30, 0x09, 0x01, 0xB1, 0x02, 0xC0, 0xA1,
        0x02, 0x85, 0xEF, 0x75, 0x08, 0x95, 0x30, 0x09, 0x01, 0xB1, 0x02, 0xC0, 0xC0,
    ];
    let r = vstd::slice::slice_to_vec(block.as_slice());
    proof {
        assert(r@ =~= spec_hid_report_descriptor());
    }
    r
}

/// The USB identity this model registers itself with.
pub fn device_descriptor() -> (d: DeviceDescriptor)
    ensures
        d.b_device_class == 0x0,
        d.b_device_sub_class == 0x0,
        d.id_vendor == 0x054C,
        d.id_product == 0x0268,
        d.bcd_device == 0x0100,
        d.i_manufacturer@ == "TAITO"@,
        d.i_product@ == "Densha de Go! Plug & Play (Generic Train Controller mode)"@,
        d.i_serial_number@ == "GENERIC-TRAIN-CONTROLLER"@,
{
    DeviceDescriptor {
        b_device_class: 0x0,
        b_device_sub_class: 0x0,
        id_vendor: 0x054C,
        id_product: 0x0268,
        bcd_device: 0x0100,
        i_manufacturer: "TAITO",
        i_product: "Densha de Go! Plug & Play (Generic Train Controller mode)",
        i_serial_number: "GENERIC-TRAIN-CONTROLLER",
    }
}

/// Every notch maps to its exact documented analog level: the report
/// carries the brake level at index 7 and the power level at index
/// 6, each a literal table lookup.
pub proof fn lemma_notch_bytes(s: ControllerState)
    requires
        wf(s),
    ensures
        spec_update(s)[7] == spec_brake_notch(s.brake as int),
        spec_update(s)[6] == spec_power_notch(s.power as int),
{
}

} // verus!
