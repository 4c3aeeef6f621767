//! One-handle Type 2 controller (DGOC44-U).
//!
//! Six-byte report: the brake and power analog levels, a zero, one button
//! byte, and two trailing zeros. The direction buttons have no hat switch
//! here: each is encoded as select plus one action button.

use vstd::prelude::*;

use crate::emulated::DeviceDescriptor;
use crate::physical::ControllerState;
use crate::physical::wf;

verus! {

/// Analog level for each power notch.
pub open spec fn spec_power_notch(p: int) -> u8 {
    if p == 0 {
        0x81
    } else if p == 1 {
        0x6D
    } else if p == 2 {
        0x54
    } else if p == 3 {
        0x3F
    } else if p == 4 {
        0x21
    } else {
        0x00
    }
}

/// Analog level for each brake notch.
pub open spec fn spec_brake_notch(b: int) -> u8 {
    if b == 0 {
        0x79
    } else if b == 1 {
        0x8A
    } else if b == 2 {
        0x94
    } else if b == 3 {
        0x9A
    } else if b == 4 {
        0xA2
    } else if b == 5 {
        0xA8
    } else if b == 6 {
        0xAF
    } else if b == 7 {
        0xB2
    } else if b == 8 {
        0xB5
    } else {
        0xB9
    }
}

fn power_notch(p: u8) -> (r: u8)
    requires
        p <= 5,
    ensures
        r == spec_power_notch(p as int),
{
    match p {
        0 => 0x81,
        1 => 0x6D,
        2 => 0x54,
        3 => 0x3F,
        4 => 0x21,
        _ => 0x00,
    }
}

fn brake_notch(b: u8) -> (r: u8)
    requires
        b <= 9,
    ensures
        r == spec_brake_notch(b as int),
{
    match b {
        0 => 0x79,
        1 => 0x8A,
        2 => 0x94,
        3 => 0x9A,
        4 => 0xA2,
        5 => 0xA8,
        6 => 0xAF,
        7 => 0xB2,
        8 => 0xB5,
        _ => 0xB9,
    }
}

/// Button byte: B, A, C, D on bits 0 to 3, select on bit 4, start on
/// bit 5. A direction button presses select together with one of D, B, A
/// or C (up, down, left, right respectively), so the low bits and the
/// select bit collect from both sources.
pub open spec fn spec_buttons(s: ControllerState) -> u8 {
    ((if s.button_b || s.button_down {
        1int
    } else {
        0int
    }) + (if s.button_a || s.button_left {
        2int
    } else {
        0int
    }) + (if s.button_c || s.button_right {
        4int
    } else {
        0int
    }) + (if s.button_d || s.button_up {
        8int
    } else {
        0int
    }) + (if s.button_select || s.button_up || s.button_down || s.button_left
        || s.button_right {
        16int
    } else {
        0int
    }) + (if s.button_start {
        32int
    } else {
        0int
    })) as u8
}

/// The six-byte report for one snapshot.
pub open spec fn spec_update(s: ControllerState) -> Seq<u8> {
    seq![
        spec_brake_notch(s.brake as int),
        spec_power_notch(s.power as int),
        0x0u8,
        spec_buttons(s),
        0x0u8,
        0x0u8,
    ]
}

/// Button byte for one snapshot.
fn buttons(state: &ControllerState) -> (r: u8)
    ensures
        r == spec_buttons(*state),
{
    (if state.button_b || state.button_down {
        1
    } else {
        0
    }) + (if state.button_a || state.button_left {
        2
    } else {
        0
    }) + (if state.button_c || state.button_right {
        4
    } else {
        0
    }) + (if state.button_d || state.button_up {
        8
    } else {
        0
    }) + (if state.button_select || state.button_up || state.button_down || state.button_left
        || state.button_right {
        16
    } else {
        0
    }) + (if state.button_start {
        32
    } else {
        0
    })
}

/// Encode one report. This model never consumes a chord, so the snapshot
/// is left as it was.
pub fn update_gadget(state: &mut ControllerState) -> (report: Vec<u8>)
    requires
        wf(*old(state)),
    ensures
        *final(state) == *old(state),
        report@ == spec_update(*old(state)),
{
    // Calculate data for handles
    let power = power_notch(state.power);
    let brake = brake_notch(state.brake);

    // Calculate data for buttons
    let btns = buttons(state);

    // Assemble the report
    let data: [u8; 6] = [brake, power, 0x0, btns, 0x0, 0x0];
    let report = vstd::slice::slice_to_vec(data.as_slice());
    proof {
        assert(report@ =~= spec_update(*state));
    }
    report
}

/// Every notch maps to its exact documented analog level: the report
/// carries the brake level at index 0 and the power level at index
/// 1, each a literal table lookup.
pub proof fn lemma_notch_bytes(s: ControllerState)
    requires
        wf(s),
    ensures
        spec_update(s)[0] == spec_brake_notch(s.brake as int),
        spec_update(s)[1] == spec_power_notch(s.power as int),
{
}

} // verus!
