//! Multi-train controller in its five-power, seven-brake mode.
//!
//! Four-byte report: a constant 0x1, one handle byte (a nonzero brake
//! overrides the power lookup), and two button bytes. No chords in this
//! mode.

use vstd::prelude::*;

use crate::emulated::DeviceDescriptor;
use crate::physical::ControllerState;
use crate::physical::wf;

verus! {

/// Handle level for each power notch.
pub open spec fn spec_power_notch(p: int) -> u8 {
    if p == 0 {
        0x09
    } else if p == 1 {
        0x0A
    } else if p == 2 {
        0x0B
    } else if p == 3 {
        0x0C
    } else if p == 4 {
        0x0D
    } else {
        0x0E
    }
}

/// Handle level for each brake notch.
pub open spec fn spec_brake_notch(b: int) -> u8 {
    if b == 0 {
        0x09
    } else if b == 1 {
        0x08
    } else if b == 2 {
        0x07
    } else if b == 3 {
        0x06
    } else if b == 4 {
        0x05
    } else if b == 5 {
        0x04
    } else if b == 6 {
        0x03
    } else if b == 7 {
        0x02
    } else if b == 8 {
        0x02
    } else {
        0x01
    }
}

fn power_notch(p: u8) -> (r: u8)
    requires
        p <= 5,
    ensures
        r == spec_power_notch(p as int),
{
    match p {
        0 => 0x09,
        1 => 0x0A,
        2 => 0x0B,
        3 => 0x0C,
        4 => 0x0D,
        _ => 0x0E,
    }
}

fn brake_notch(b: u8) -> (r: u8)
    requires
        b <= 9,
    ensures
        r == spec_brake_notch(b as int),
{
    match b {
        0 => 0x09,
        1 => 0x08,
        2 => 0x07,
        3 => 0x06,
        4 => 0x05,
        5 => 0x04,
        6 => 0x03,
        7 => 0x02,
        8 => 0x02,
        _ => 0x01,
    }
}

/// First button byte: D, A, B, C on bits 1, 2, 4 and 5.
pub open spec fn spec_buttons1(s: ControllerState) -> u8 {
    ((if s.button_d {
        2int
    } else {
        0int
    }) + (if s.button_a {
        4int
    } else {
        0int
    }) + (if s.button_b {
        16int
    } else {
        0int
    }) + (if s.button_c {
        32int
    } else {
        0int
    })) as u8
}

/// Second button byte: start, select, up, down, left, right on bits 0
/// to 5.
pub open spec fn spec_buttons2(s: ControllerState) -> u8 {
    ((if s.button_start {
        1int
    } else {
        0int
    }) + (if s.button_select {
        2int
    } else {
        0int
    }) + (if s.button_up {
        4int
    } else {
        0int
    }) + (if s.button_down {
        8int
    } else {
        0int
    }) + (if s.button_left {
        16int
    } else {
        0int
    }) + (if s.button_right {
        32int
    } else {
        0int
    })) as u8
}

/// The handle level: a nonzero brake overrides the power lookup.
pub open spec fn spec_handle(s: ControllerState) -> u8 {
    if s.brake > 0 {
        spec_brake_notch(s.brake as int)
    } else {
        spec_power_notch(s.power as int)
    }
}

/// The four-byte report for one snapshot.
pub open spec fn spec_update(s: ControllerState) -> Seq<u8> {
    seq![0x1u8, spec_handle(s), spec_buttons1(s), spec_buttons2(s)]
}

/// First button byte for one snapshot.
fn buttons1(state: &ControllerState) -> (r: u8)
    ensures
        r == spec_buttons1(*state),
{
    (if state.button_d {
        2
    } else {
        0
    }) + (if state.button_a {
        4
    } else {
        0
    }) + (if state.button_b {
        16
    } else {
        0
    }) + (if state.button_c {
        32
    } else {
        0
    })
}

/// Second button byte for one snapshot.
fn buttons2(state: &ControllerState) -> (r: u8)
    ensures
        r == spec_buttons2(*state),
{
    (if state.button_start {
        1
    } else {
        0
    }) + (if state.button_select {
        2
    } else {
        0
    }) + (if state.button_up {
        4
    } else {
        0
    }) + (if state.button_down {
        8
    } else {
        0
    }) + (if state.button_left {
        16
    } else {
        0
    }) + (if state.button_right {
        32
    } else {
        0
    })
}

/// Encode one report. This mode never consumes a chord, so the snapshot
/// is left as it was.
pub fn update_gadget(state: &mut ControllerState) -> (report: Vec<u8>)
    requires
        wf(*old(state)),
    ensures
        *final(state) == *old(state),
        report@ == spec_update(*old(state)),
{
    // Calculate data for handles
    let mut handle = power_notch(state.power);
    if state.brake > 0 {
        handle = brake_notch(state.brake);
    }

    // Calculate data for buttons
    let b1 = buttons1(state);
    let b2 = buttons2(state);

    // Assemble the report
    let data: [u8; 4] = [0x1, handle, b1, b2];
    let report = vstd::slice::slice_to_vec(data.as_slice());
    proof {
        assert(report@ =~= spec_update(*state));
    }
    report
}

/// The configuration-descriptor block: two identical interface and
/// interrupt-in endpoint descriptor sets.
pub open spec fn spec_descriptors() -> Seq<u8> {
    seq![
        0x01u8, 0x00, 0x00, 0x00, 0x30, 0x00, 0x00, 0x00, 0x02, 0x00, 0x00, 0x00, 0x02, 0x00,
        0x00, 0x00, 0x09, 0x04, 0x00, 0x00, 0x01, 0x00, 0x00, 0x00, 0x00, 0x07, 0x05, 0x81, 0x03,
        0x08, 0x00, 0x14, 0x09, 0x04, 0x00, 0x00, 0x01, 0x00, 0x00, 0x00, 0x00, 0x07, 0x05, 0x81,
        0x03, 0x08, 0x00, 0x14,
    ]
}

/// The raw configuration-descriptor byte block.
pub fn descriptors() -> (r: Vec<u8>)
    ensures
        r@ == spec_descriptors(),
{
    let block: [u8; 48] = [
        0x01, 0x00, 0x00, 0x00, 0x30, 0x00, 0x00, 0x00, 0x02, 0x00, 0x00, 0x00, 0x02, 0x00, 0x00,
        0x00, 0x09, 0x04, 0x00, 0x00, 0x01, 0x00, 0x00, 0x00, 0x00, 0x07, 0x05, 0x81, 0x03, 0x08,
        0x00, 0x14, 0x09, 0x04, 0x00, 0x00, 0x01, 0x00, 0x00, 0x00, 0x00, 0x07, 0x05, 0x81, 0x03,
        0x08, 0x00, 0x14,
    ];
    let r = vstd::slice::slice_to_vec(block.as_slice());
    proof {
        assert(r@ =~= spec_descriptors());
    }
    r
}

/// The USB identity this model registers itself with.
pub fn device_descriptor() -> (d: DeviceDescriptor)
    ensures
        d.b_device_class == 0x00,
        d.b_device_sub_class == 0x0,
        d.id_vendor == 0x0AE4,
        d.id_product == 0x0101,
        d.bcd_device == 0x0102,
        d.i_manufacturer@ == "TAITO"@,
        d.i_product@ == "Densha de Go! Plug & Play (MTC P5/B7 mode)"@,
        d.i_serial_number@ == "SOTP-031201"@,
{
    DeviceDescriptor {
        b_device_class: 0x00,
        b_device_sub_class: 0x0,
        id_vendor: 0x0AE4,
        id_product: 0x0101,
        bcd_device: 0x0102,
        i_manufacturer: "TAITO",
        i_product: "Densha de Go! Plug & Play (MTC P5/B7 mode)",
        i_serial_number: "SOTP-031201",
    }
}

/// A nonzero brake always overrides the power lookup in the handle byte.
pub proof fn lemma_brake_overrides_power(s: ControllerState)
    requires
        wf(s),
    ensures
        s.brake > 0 ==> spec_update(s)[1] == spec_brake_notch(s.brake as int),
        s.brake == 0 ==> spec_update(s)[1] == spec_power_notch(s.power as int),
{
}

} // verus!
