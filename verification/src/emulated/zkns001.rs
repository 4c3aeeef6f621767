//! One-handle controller for the Switch game (ZKNS-001).
//!
//! Eight-byte gamepad report: two button bytes, the hat switch (idle
//! 0xF), a constant 0x80, the handle level on the X axis (a nonzero
//! brake overrides the power lookup), and three constants. While select
//! is pressed and not yet held, select+left and select+right act as the
//! L and R shoulder buttons and select+start as Home; a fired chord
//! suppresses the chorded buttons' normal bits for the cycle.

use vstd::prelude::*;

use crate::emulated::spec_hat_position;
use crate::emulated::hat_position;
use crate::emulated::DeviceDescriptor;
use crate::physical::ControllerState;
use crate::physical::wf;

verus! {

/// Axis level for each power notch.
pub open spec fn spec_power_notch(p: int) -> u8 {
    if p == 0 {
        0x80
    } else if p == 1 {
        0x9F
    } else if p == 2 {
        0xB7
    } else if p == 3 {
        0xCE
    } else if p == 4 {
        0xE6
    } else {
        0xFF
    }
}

/// Axis level for each brake notch.
pub open spec fn spec_brake_notch(b: int) -> u8 {
    if b == 0 {
        0x80
    } else if b == 1 {
        0x65
    } else if b == 2 {
        0x57
    } else if b == 3 {
        0x49
    } else if b == 4 {
        0x3C
    } else if b == 5 {
        0x2E
    } else if b == 6 {
        0x20
    } else if b == 7 {
        0x13
    } else if b == 8 {
        0x05
    } else {
        0x00
    }
}

fn power_notch(p: u8) -> (r: u8)
    requires
        p <= 5,
    ensures
        r == spec_power_notch(p as int),
{
    match p {
        0 => 0x80,
        1 => 0x9F,
        2 => 0xB7,
        3 => 0xCE,
        4 => 0xE6,
        _ => 0xFF,
    }
}

fn brake_notch(b: u8) -> (r: u8)
    requires
        b <= 9,
    ensures
        r == spec_brake_notch(b as int),
{
    match b {
        0 => 0x80,
        1 => 0x65,
        2 => 0x57,
        3 => 0x49,
        4 => 0x3C,
        5 => 0x2E,
        6 => 0x20,
        7 => 0x13,
        8 => 0x05,
        _ => 0x00,
    }
}

/// The select+left chord: the L shoulder button.
pub open spec fn spec_chord_l(s: ControllerState) -> bool {
    !s.button_select_hold && s.button_select && s.button_left
}

/// The select+right chord: the R shoulder button.
pub open spec fn spec_chord_r(s: ControllerState) -> bool {
    !s.button_select_hold && s.button_select && s.button_right
}

/// The start+select chord: the Home button.
pub open spec fn spec_chord_home(s: ControllerState) -> bool {
    !s.button_select_hold && s.button_start && s.button_select
}

/// The combo latch after one encode: set as soon as any chord fires and
/// kept until select is released.
pub open spec fn spec_combo(s: ControllerState) -> bool {
    s.combo || spec_chord_l(s) || spec_chord_r(s) || spec_chord_home(s)
}

/// The snapshot after one encode: only the combo latch moves.
pub open spec fn spec_next(s: ControllerState) -> ControllerState {
    ControllerState { combo: spec_combo(s), ..s }
}

/// First button byte: Y, B, A, X on bits 0 to 3 (from the A, B, C and D
/// buttons), the chorded L and R shoulders on bits 4 and 5, and ZL on
/// bit 6 at full brake.
pub open spec fn spec_buttons1(s: ControllerState) -> u8 {
    ((if s.button_a {
        1int
    } else {
        0int
    }) + (if s.button_b {
        2int
    } else {
        0int
    }) + (if s.button_c {
        4int
    } else {
        0int
    }) + (if s.button_d {
        8int
    } else {
        0int
    }) + (if spec_chord_l(s) {
        16int
    } else {
        0int
    }) + (if spec_chord_r(s) {
        32int
    } else {
        0int
    }) + (if s.brake == 9 {
        64int
    } else {
        0int
    })) as u8
}

/// Second button byte: select (held) on bit 0, start on bit 1, the
/// chorded Home on bit 4. A fired chord suppresses the held-select and
/// start bits.
pub open spec fn spec_buttons2(s: ControllerState) -> u8 {
    ((if !spec_combo(s) && s.button_select_hold {
        1int
    } else {
        0int
    }) + (if !spec_combo(s) && s.button_start {
        2int
    } else {
        0int
    }) + (if spec_chord_home(s) {
        16int
    } else {
        0int
    })) as u8
}

/// The hat-switch value: a fired chord suppresses the left and right
/// directions.
pub open spec fn spec_dpad(s: ControllerState) -> u8 {
    spec_hat_position(
        s.button_up,
        s.button_down,
        !spec_combo(s) && s.button_left,
        !spec_combo(s) && s.button_right,
        0xF,
    )
}

/// The handle level: a nonzero brake overrides the power lookup.
pub open spec fn spec_handle(s: ControllerState) -> u8 {
    if s.brake > 0 {
        spec_brake_notch(s.brake as int)
    } else {
        spec_power_notch(s.power as int)
    }
}

/// The eight-byte report for one snapshot.
pub open spec fn spec_update(s: ControllerState) -> Seq<u8> {
    seq![
        spec_buttons1(s),
        spec_buttons2(s),
        spec_dpad(s),
        0x80u8,
        spec_handle(s),
        0x80u8,
        0x80u8,
        0x00u8,
    ]
}

/// First button byte for one snapshot.
fn buttons1(state: &ControllerState) -> (r: u8)
    ensures
        r == spec_buttons1(*state),
{
    let chord_l = !state.button_select_hold && state.button_select && state.button_left;
    let chord_r = !state.button_select_hold && state.button_select && state.button_right;
    (if state.button_a {
        1
    } else {
        0
    }) + (if state.button_b {
        2
    } else {
        0
    }) + (if state.button_c {
        4
    } else {
        0
    }) + (if state.button_d {
        8
    } else {
        0
    }) + (if chord_l {
        16
    } else {
        0
    }) + (if chord_r {
        32
    } else {
        0
    }) + (if state.brake == 9 {
        64
    } else {
        0
    })
}

/// Second button byte for one snapshot.
fn buttons2(state: &ControllerState) -> (r: u8)
    ensures
        r == spec_buttons2(*state),
{
    let chord_l = !state.button_select_hold && state.button_select && state.button_left;
    let chord_r = !state.button_select_hold && state.button_select && state.button_right;
    let chord_home = !state.button_select_hold && state.button_start && state.button_select;
    let combo = state.combo || chord_l || chord_r || chord_home;
    (if !combo && state.button_select_hold {
        1
    } else {
        0
    }) + (if !combo && state.button_start {
        2
    } else {
        0
    }) + (if chord_home {
        16
    } else {
        0
    })
}

/// The hat-switch value for one snapshot.
fn dpad(state: &ControllerState) -> (r: u8)
    ensures
        r == spec_dpad(*state),
{
    let chord_l = !state.button_select_hold && state.button_select && state.button_left;
    let chord_r = !state.button_select_hold && state.button_select && state.button_right;
    let chord_home = !state.button_select_hold && state.button_start && state.button_select;
    let combo = state.combo || chord_l || chord_r || chord_home;
    hat_position(
        state.button_up,
        state.button_down,
        !combo && state.button_left,
        !combo && state.button_right,
        0xF,
    )
}

/// Consume any select chord: the combo latch moves.
fn consume_chords(state: &mut ControllerState)
    ensures
        *final(state) == spec_next(*old(state)),
{
    let chord_l = !state.button_select_hold && state.button_select && state.button_left;
    let chord_r = !state.button_select_hold && state.button_select && state.button_right;
    let chord_home = !state.button_select_hold && state.button_start && state.button_select;
    if chord_l || chord_r || chord_home {
        state.combo = true;
    }
}

/// Encode one report, consuming any select chord: the combo latch moves
/// as the chords dictate, and consumed buttons lose their normal bits for
/// this cycle.
pub fn update_gadget(state: &mut ControllerState) -> (report: Vec<u8>)
    requires
        wf(*old(state)),
    ensures
        *final(state) == spec_next(*old(state)),
        wf(*final(state)),
        report@ == spec_update(*old(state)),
{
    // Calculate data for handles
    let mut handle = power_notch(state.power);
    if state.brake > 0 {
        handle = brake_notch(state.brake);
    }

    // Calculate data for buttons and D-pad
    let b1 = buttons1(state);
    let b2 = buttons2(state);
    let hat = dpad(state);

    // Consume select chords
    consume_chords(state);

    // Assemble the report
    let data: [u8; 8] = [b1, b2, hat, 0x80, handle, 0x80, 0x80, 0x00];
    let report = vstd::slice::slice_to_vec(data.as_slice());
    proof {
        assert(report@ =~= spec_update(*old(state)));
    }
    report
}

/// The configuration-descriptor block: two identical interface, HID and
/// endpoint descriptor sets announcing the 94-byte report descriptor.
pub open spec fn spec_descriptors() -> Seq<u8> {
    seq![
        0x01u8, 0x00, 0x00, 0x00, 0x50, 0x00, 0x00, 0x00, 0x04, 0x00, 0x00, 0x00, 0x04, 0x00,
        0x00, 0x00, 0x09, 0x04, 0x00, 0x00, 0x02, 0x03, 0x00, 0x00, 0x00, 0x09, 0x21, 0x11, 0x01,
        0x00, 0x01, 0x22, 0x5E, 0x00, 0x07, 0x05, 0x02, 0x03, 0x40, 0x00, 0x05, 0x07, 0x05, 0x81,
        0x03, 0x40, 0x00, 0x05, 0x09, 0x04, 0x00, 0x00, 0x02, 0x03, 0x00, 0x00, 0x00, 0x09, 0x21,
        0x11, 0x01, 0x00, 0x01, 0x22, 0x5E, 0x00, 0x07, 0x05, 0x02, 0x03, 0x40, 0x00, 0x05, 0x07,
        0x05, 0x81, 0x03, 0x40, 0x00, 0x05,
    ]
}

/// The raw configuration-descriptor byte block.
pub fn descriptors() -> (r: Vec<u8>)
    ensures
        r@ == spec_descriptors(),
{
    let block: [u8; 80] = [
        0x01, 0x00, 0x00, 0x00, 0x50, 0x00, 0x00, 0x00, 0x04, 0x00, 0x00, 0x00, 0x04, 0x00, 0x00,
        0x00, 0x09, 0x04, 0x00, 0x00, 0x02, 0x03, 0x00, 0x00, 0x00, 0x09, 0x21, 0x11, 0x01, 0x00,
        0x01, 0x22, 0x5E, 0x00, 0x07, 0x05, 0x02, 0x03, 0x40, 0x00, 0x05, 0x07, 0x05, 0x81, 0x03,
        0x40, 0x00, 0x05, 0x09, 0x04, 0x00, 0x00, 0x02, 0x03, 0x00, 0x00, 0x00, 0x09, 0x21, 0x11,
        0x01, 0x00, 0x01, 0x22, 0x5E, 0x00, 0x07, 0x05, 0x02, 0x03, 0x40, 0x00, 0x05, 0x07, 0x05,
        0x81, 0x03, 0x40, 0x00, 0x05,
    ];
    let r = vstd::slice::slice_to_vec(block.as_slice());
    proof {
        assert(r@ =~= spec_descriptors());
    }
    r
}

/// The HID report descriptor announced by the configuration block: a
/// gamepad with fourteen buttons, a hat switch and four 8-bit axes.
pub open spec fn spec_hid_report_descriptor() -> Seq<u8> {
    seq![
        0x05u8, 0x01, 0x09, 0x05, 0xA1, 0x01, 0x15, 0x00, 0x25, 0x01, 0x35, 0x00, 0x45, 0x01,
        0x75, 0x01, 0x95, 0x0E, 0x05, 0x09, 0x19, 0x01, 0x29, 0x0E, 0x81, 0x02, 0x95, 0x02, 0x81,
        0x01, 0x05, 0x01, 0x25, 0x07, 0x46, 0x3B, 0x01, 0x75, 0x04, 0x95, 0x01, 0x65, 0x14, 0x09,
        0x39, 0x81, 0x42, 0x65, 0x00, 0x95, 0x01, 0x81, 0x01, 0x26, 0xFF, 0x00, 0x46, 0xFF, 0x00,
        0x09, 0x30, 0x09, 0x31, 0x09, 0x32, 0x09, 0x35, 0x75, 0x08, 0x95, 0x04, 0x81, 0x02, 0x75,
        0x08, 0x95, 0x01, 0x81, 0x01, 0x0A, 0x4F, 0x48, 0x75, 0x08, 0x95, 0x08, 0xB1, 0x02, 0x0A,
        0x4F, 0x48, 0x91, 0x02, 0xC0,
    ]
}

/// The raw HID report descriptor bytes.
pub fn hid_report_descriptor() -> (r: Vec<u8>)
    ensures
        r@ == spec_hid_report_descriptor(),
{
    let block: [u8; 94] = [
        0x05, 0x01, 0x09, 0x05, 0xA1, 0x01, 0x15, 0x00, 0x25, 0x01, 0x35, 0x00, 0x45, 0x01, 0x75,
        0x01, 0x95, 0x0E, 0x05, 0x09, 0x19, 0x01, 0x29, 0x0E, 0x81, 0x02, 0x95, 0x02, 0x81, 0x01,
        0x05, 0x01, 0x25, 0x07, 0x46, 0x3B, 0x01, 0x75, 0x04, 0x95, 0x01, 0x65, 0x14, 0x09, 0x39,
        0x81, 0x42, 0x65, 0x00, 0x95, 0x01, 0x81, 0x01, 0x26, 0xFF, 0x00, 0x46, 0xFF, 0x00, 0x09,
        0x30, 0x09, 0x31, 0x09, 0x32, 0x09, 0x35, 0x75, 0x08, 0x95, 0x04, 0x81, 0x02, 0x75, 0x08,
        0x95, 0x01, 0x81, 0x01, 0x0A, 0x4F, 0x48, 0x75, 0x08, 0x95, 0x08, 0xB1, 0x02, 0x0A, 0x4F,
        0x48, 0x91, 0x02, 0xC0,
    ];
    let r = vstd::slice::slice_to_vec(block.as_slice());
    proof {
        assert(r@ =~= spec_hid_report_descriptor());
    }
    r
}

/// The USB identity this model registers itself with.
pub fn device_descriptor() -> (d: DeviceDescriptor)
    ensures
        d.b_device_class == 0x0,
        d.b_device_sub_class == 0x0,
        d.id_vendor == 0x33DD,
        d.id_product == 0x0001,
        d.bcd_device == 0x0106,
        d.i_manufacturer@ == "TAITO"@,
        d.i_product@ == "Densha de Go! Plug & Play (NS One Handle mode)"@,
        d.i_serial_number@ == "ZKNS-001"@,
{
    DeviceDescriptor {
        b_device_class: 0x0,
        b_device_sub_class: 0x0,
        id_vendor: 0x33DD,
        id_product: 0x0001,
        bcd_device: 0x0106,
        i_manufacturer: "TAITO",
        i_product: "Densha de Go! Plug & Play (NS One Handle mode)",
        i_serial_number: "ZKNS-001",
    }
}

/// Combo suppression: a fired chord keeps the chorded buttons' normal
/// bits out of the same cycle's output — a chorded left or right leaves
/// the hat switch without that direction (only up, down or idle remain),
/// and a chorded start keeps its bit in the second button byte clear
/// while the Home bit appears instead.
pub proof fn lemma_combo_suppression(s: ControllerState)
    requires
        wf(s),
    ensures
        spec_chord_l(s) || spec_chord_r(s) ==> (spec_dpad(s) == 0x0 || spec_dpad(s) == 0x4
            || spec_dpad(s) == 0xF),
        spec_chord_home(s) ==> spec_buttons2(s) / 2 % 2 == 0 && spec_buttons2(s) / 16 % 2 == 1,
        spec_combo(s) ==> spec_buttons2(s) / 1 % 2 == 0,
{
}

/// A nonzero brake always overrides the power lookup in the handle byte,
/// and full brake also presses ZL.
pub proof fn lemma_brake_overrides_power(s: ControllerState)
    requires
        wf(s),
    ensures
        s.brake > 0 ==> spec_update(s)[4] == spec_brake_notch(s.brake as int),
        s.brake == 0 ==> spec_update(s)[4] == spec_power_notch(s.power as int),
        s.brake == 9 ==> spec_buttons1(s) / 64 % 2 == 1,
{
}

} // verus!
