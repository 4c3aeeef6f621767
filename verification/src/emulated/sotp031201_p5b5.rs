//! Multi-train controller in its five-power, five-brake mode.
//!
//! Four-byte report: a constant 0x1, one handle byte (the reverser code
//! plus the notch level, with a nonzero brake overriding the power
//! lookup), and two button bytes. While select is pressed and not yet
//! held, chords reinterpret some buttons: select+A acts as a second A,
//! select+D as the S button, and select with up, left or down moves the
//! reverser; a fired chord suppresses the chorded buttons' normal bits
//! for the cycle.

use vstd::prelude::*;

use crate::emulated::DeviceDescriptor;
use crate::physical::ControllerState;
use crate::physical::wf;

verus! {

/// Handle level for each power notch.
pub open spec fn spec_power_notch(p: int) -> u8 {
    if p == 0 {
        0x07
    } else if p == 1 {
        0x08
    } else if p == 2 {
        0x09
    } else if p == 3 {
        0x0A
    } else if p == 4 {
        0x0B
    } else {
        0x0C
    }
}

/// Handle level for each brake notch.
pub open spec fn spec_brake_notch(b: int) -> u8 {
    if b == 0 {
        0x07
    } else if b == 1 {
        0x06
    } else if b == 2 {
        0x05
    } else if b == 3 {
        0x04
    } else if b == 4 {
        0x03
    } else if b == 5 {
        0x02
    } else if b == 6 {
        0x02
    } else if b == 7 {
        0x02
    } else if b == 8 {
        0x02
    } else {
        0x01
    }
}

fn power_notch(p: u8) -> (r: u8)
    requires
        p <= 5,
    ensures
        r == spec_power_notch(p as int),
{
    match p {
        0 => 0x07,
        1 => 0x08,
        2 => 0x09,
        3 => 0x0A,
        4 => 0x0B,
        _ => 0x0C,
    }
}

fn brake_notch(b: u8) -> (r: u8)
    requires
        b <= 9,
    ensures
        r == spec_brake_notch(b as int),
{
    match b {
        0 => 0x07,
        1 => 0x06,
        2 => 0x05,
        3 => 0x04,
        4 => 0x03,
        5 => 0x02,
        6 => 0x02,
        7 => 0x02,
        8 => 0x02,
        _ => 0x01,
    }
}

/// The select+A chord: A reinterpreted as the second A button.
pub open spec fn spec_chord_a(s: ControllerState) -> bool {
    !s.button_select_hold && s.button_select && s.button_a
}

/// The select+D chord: D reinterpreted as the S button.
pub open spec fn spec_chord_d(s: ControllerState) -> bool {
    !s.button_select_hold && s.button_select && s.button_d
}

/// The select+up chord: reverser to forward.
pub open spec fn spec_chord_up(s: ControllerState) -> bool {
    !s.button_select_hold && s.button_select && s.button_up
}

/// The select+left chord: reverser to neutral.
pub open spec fn spec_chord_left(s: ControllerState) -> bool {
    !s.button_select_hold && s.button_select && s.button_left
}

/// The select+down chord: reverser to reverse.
pub open spec fn spec_chord_down(s: ControllerState) -> bool {
    !s.button_select_hold && s.button_select && s.button_down
}

/// The combo latch after one encode: set as soon as any chord fires and
/// kept until select is released.
pub open spec fn spec_combo(s: ControllerState) -> bool {
    s.combo || spec_chord_a(s) || spec_chord_d(s) || spec_chord_up(s) || spec_chord_left(s)
        || spec_chord_down(s)
}

/// The reverser code after one encode: 0x20 forward, 0x00 neutral, 0x10
/// reverse, with the later-checked chords taking precedence.
pub open spec fn spec_reverser(s: ControllerState) -> u8 {
    if spec_chord_down(s) {
        0x10
    } else if spec_chord_left(s) {
        0x00
    } else if spec_chord_up(s) {
        0x20
    } else {
        s.reverser
    }
}

/// The snapshot after one encode: only the combo latch and the reverser
/// move.
pub open spec fn spec_next(s: ControllerState) -> ControllerState {
    ControllerState { combo: spec_combo(s), reverser: spec_reverser(s), ..s }
}

/// First button byte: S, D, A, second A, B, C on bits 0 to 5. A fired
/// chord suppresses the normal D, A and C bits.
pub open spec fn spec_buttons1(s: ControllerState) -> u8 {
    ((if spec_chord_d(s) {
        1int
    } else {
        0int
    }) + (if !spec_combo(s) && s.button_d {
        2int
    } else {
        0int
    }) + (if !spec_combo(s) && s.button_a {
        4int
    } else {
        0int
    }) + (if spec_chord_a(s) {
        8int
    } else {
        0int
    }) + (if s.button_b {
        16int
    } else {
        0int
    }) + (if !spec_combo(s) && s.button_c {
        32int
    } else {
        0int
    })) as u8
}

/// Second button byte: start, select (held), up, down, left, right on
/// bits 0 to 5. A fired chord suppresses the held-select, up, down and
/// left bits.
pub open spec fn spec_buttons2(s: ControllerState) -> u8 {
    ((if s.button_start {
        1int
    } else {
        0int
    }) + (if !spec_combo(s) && s.button_select_hold {
        2int
    } else {
        0int
    }) + (if !spec_combo(s) && s.button_up {
        4int
    } else {
        0int
    }) + (if !spec_combo(s) && s.button_down {
        8int
    } else {
        0int
    }) + (if !spec_combo(s) && s.button_left {
        16int
    } else {
        0int
    }) + (if s.button_right {
        32int
    } else {
        0int
    })) as u8
}

/// The handle level: a nonzero brake overrides the power lookup.
pub open spec fn spec_handle(s: ControllerState) -> u8 {
    if s.brake > 0 {
        spec_brake_notch(s.brake as int)
    } else {
        spec_power_notch(s.power as int)
    }
}

/// The four-byte report for one snapshot.
pub open spec fn spec_update(s: ControllerState) -> Seq<u8> {
    seq![
        0x1u8,
        (spec_reverser(s) + spec_handle(s)) as u8,
        spec_buttons1(s),
        spec_buttons2(s),
    ]
}

/// First button byte for one snapshot.
fn buttons1(state: &ControllerState) -> (r: u8)
    ensures
        r == spec_buttons1(*state),
{
    let chord_a = !state.button_select_hold && state.button_select && state.button_a;
    let chord_d = !state.button_select_hold && state.button_select && state.button_d;
    let chord_up = !state.button_select_hold && state.button_select && state.button_up;
    let chord_left = !state.button_select_hold && state.button_select && state.button_left;
    let chord_down = !state.button_select_hold && state.button_select && state.button_down;
    let combo = state.combo || chord_a || chord_d || chord_up || chord_left || chord_down;
    (if chord_d {
        1
    } else {
        0
    }) + (if !combo && state.button_d {
        2
    } else {
        0
    }) + (if !combo && state.button_a {
        4
    } else {
        0
    }) + (if chord_a {
        8
    } else {
        0
    }) + (if state.button_b {
        16
    } else {
        0
    }) + (if !combo && state.button_c {
        32
    } else {
        0
    })
}

/// Second button byte for one snapshot.
fn buttons2(state: &ControllerState) -> (r: u8)
    ensures
        r == spec_buttons2(*state),
{
    let chord_a = !state.button_select_hold && state.button_select && state.button_a;
    let chord_d = !state.button_select_hold && state.button_select && state.button_d;
    let chord_up = !state.button_select_hold && state.button_select && state.button_up;
    let chord_left = !state.button_select_hold && state.button_select && state.button_left;
    let chord_down = !state.button_select_hold && state.button_select && state.button_down;
    let combo = state.combo || chord_a || chord_d || chord_up || chord_left || chord_down;
    (if state.button_start {
        1
    } else {
        0
    }) + (if !combo && state.button_select_hold {
        2
    } else {
        0
    }) + (if !combo && state.button_up {
        4
    } else {
        0
    }) + (if !combo && state.button_down {
        8
    } else {
        0
    }) + (if !combo && state.button_left {
        16
    } else {
        0
    }) + (if state.button_right {
        32
    } else {
        0
    })
}

/// The handle level for one snapshot.
fn handle_level(state: &ControllerState) -> (r: u8)
    requires
        wf(*state),
    ensures
        r == spec_handle(*state),
        r <= 0x0C,
{
    let mut handle = power_notch(state.power);
    if state.brake > 0 {
        handle = brake_notch(state.brake);
    }
    handle
}

/// Consume any select chord: the combo latch and the reverser move as the
/// chords dictate.
fn consume_chords(state: &mut ControllerState)
    ensures
        *final(state) == spec_next(*old(state)),
{
    let chord_a = !state.button_select_hold && state.button_select && state.button_a;
    let chord_d = !state.button_select_hold && state.button_select && state.button_d;
    let chord_up = !state.button_select_hold && state.button_select && state.button_up;
    let chord_left = !state.button_select_hold && state.button_select && state.button_left;
    let chord_down = !state.button_select_hold && state.button_select && state.button_down;
    if chord_up {
        state.reverser = 0x20;
    }
    if chord_left {
        state.reverser = 0x00;
    }
    if chord_down {
        state.reverser = 0x10;
    }
    if chord_a || chord_d || chord_up || chord_left || chord_down {
        state.combo = true;
    }
}

/// Encode one report, consuming any select chord: the combo latch and the
/// reverser move as the chords dictate, and consumed buttons lose their
/// normal bits for this cycle.
pub fn update_gadget(state: &mut ControllerState) -> (report: Vec<u8>)
    requires
        wf(*old(state)),
    ensures
        *final(state) == spec_next(*old(state)),
        wf(*final(state)),
        report@ == spec_update(*old(state)),
{
    // Calculate data for handles
    let handle = handle_level(state);

    // Calculate data for buttons
    let b1 = buttons1(state);
    let b2 = buttons2(state);

    // Consume select chords
    consume_chords(state);

    // Assemble the report
    let data: [u8; 4] = [0x1, state.reverser + handle, b1, b2];
    let report = vstd::slice::slice_to_vec(data.as_slice());
    proof {
        assert(report@ =~= spec_update(*old(state)));
    }
    report
}

/// The configuration-descriptor block: two identical interface and
/// interrupt-in endpoint descriptor sets.
pub open spec fn spec_descriptors() -> Seq<u8> {
    seq![
        0x01u8, 0x00, 0x00, 0x00, 0x30, 0x00, 0x00, 0x00, 0x02, 0x00, 0x00, 0x00, 0x02, 0x00,
        0x00, 0x00, 0x09, 0x04, 0x00, 0x00, 0x01, 0x00, 0x00, 0x00, 0x00, 0x07, 0x05, 0x81, 0x03,
        0x08, 0x00, 0x14, 0x09, 0x04, 0x00, 0x00, 0x01, 0x00, 0x00, 0x00, 0x00, 0x07, 0x05, 0x81,
        0x03, 0x08, 0x00, 0x14,
    ]
}

/// The raw configuration-descriptor byte block.
pub fn descriptors() -> (r: Vec<u8>)
    ensures
        r@ == spec_descriptors(),
{
    let block: [u8; 48] = [
        0x01, 0x00, 0x00, 0x00, 0x30, 0x00, 0x00, 0x00, 0x02, 0x00, 0x00, 0x00, 0x02, 0x00, 0x00,
        0x00, 0x09, 0x04, 0x00, 0x00, 0x01, 0x00, 0x00, 0x00, 0x00, 0x07, 0x05, 0x81, 0x03, 0x08,
        0x00, 0x14, 0x09, 0x04, 0x00, 0x00, 0x01, 0x00, 0x00, 0x00, 0x00, 0x07, 0x05, 0x81, 0x03,
        0x08, 0x00, 0x14,
    ];
    let r = vstd::slice::slice_to_vec(block.as_slice());
    proof {
        assert(r@ =~= spec_descriptors());
    }
    r
}

/// The USB identity this model registers itself with.
pub fn device_descriptor() -> (d: DeviceDescriptor)
    ensures
        d.b_device_class == 0x00,
        d.b_device_sub_class == 0x0,
        d.id_vendor == 0x1C06,
        d.id_product == 0x77A7,
        d.bcd_device == 0x0102,
        d.i_manufacturer@ == "TAITO"@,
        d.i_product@ == "Densha de Go! Plug & Play (MTC P5/B5 mode)"@,
        d.i_serial_number@ == "SOTP-031201"@,
{
    DeviceDescriptor {
        b_device_class: 0x00,
        b_device_sub_class: 0x0,
        id_vendor: 0x1C06,
        id_product: 0x77A7,
        bcd_device: 0x0102,
        i_manufacturer: "TAITO",
        i_product: "Densha de Go! Plug & Play (MTC P5/B5 mode)",
        i_serial_number: "SOTP-031201",
    }
}

/// Combo suppression: when a chord consumes a button this cycle, that
/// button's normal bit is absent from the same cycle's output — the
/// chorded A keeps bit 2 of the first button byte clear (its second-A
/// bit appears instead), the chorded D keeps bit 1 clear (the S bit
/// appears instead), and a chorded direction keeps its direction bit
/// in the second button byte clear.
pub proof fn lemma_combo_suppression(s: ControllerState)
    requires
        wf(s),
    ensures
        spec_chord_a(s) ==> spec_buttons1(s) / 4 % 2 == 0 && spec_buttons1(s) / 8 % 2 == 1,
        spec_chord_d(s) ==> spec_buttons1(s) / 2 % 2 == 0 && spec_buttons1(s) % 2 == 1,
        spec_chord_up(s) ==> spec_buttons2(s) / 4 % 2 == 0,
        spec_chord_down(s) ==> spec_buttons2(s) / 8 % 2 == 0,
        spec_chord_left(s) ==> spec_buttons2(s) / 16 % 2 == 0,
        spec_combo(s) ==> spec_buttons2(s) / 2 % 2 == 0,
{
}

/// A nonzero brake always overrides the power lookup in the handle byte.
pub proof fn lemma_brake_overrides_power(s: ControllerState)
    requires
        wf(s),
    ensures
        s.brake > 0 ==> spec_update(s)[1] == spec_reverser(s) + spec_brake_notch(s.brake as int),
        s.brake == 0 ==> spec_update(s)[1] == spec_reverser(s) + spec_power_notch(s.power as int),
{
}

} // verus!
