//! The emulated controller models: identity selection, per-model report
//! encoders, and the control-request handler.
//!
//! Each supported model lives in its own submodule with its descriptor
//! blocks, its notch tables and its encoder. The functions here tie them
//! together: [`set_model`] picks the model from a startup snapshot,
//! [`set_state`] encodes one report for the selected model, and
//! [`handle_ctrl_transfer`] answers a control-channel request.

pub mod dgoc44u;
pub mod generic;
pub mod sotp031201_p5b5;
pub mod sotp031201_p5b7;
pub mod tcpp20004;
pub mod tcpp20009;
pub mod tcpp20011;
pub mod vok00106;
pub mod zkns001;

use vstd::prelude::*;

use crate::physical::ControllerState;

verus! {

/// The supported controller identities.
#[derive(PartialEq, Eq, Structural, Debug, Clone, Copy)]
pub enum ControllerModel {
    DGOC44U,
    TCPP20009,
    TCPP20011,
    SOTP031201P4B7,
    SOTP031201P4B2B7,
    SOTP031201P5B5,
    SOTP031201P5B7,
    ZKNS001,
    SLPH00051,
}

/// The USB device-descriptor fields a model registers itself with.
pub struct DeviceDescriptor {
    pub b_device_class: u8,
    pub b_device_sub_class: u8,
    pub id_vendor: u16,
    pub id_product: u16,
    pub bcd_device: u16,
    pub i_manufacturer: &'static str,
    pub i_product: &'static str,
    pub i_serial_number: &'static str,
}

/// Hat-switch encoding shared by the models with a discrete directional
/// pad: the eight compass directions as 0x0..=0x7 clockwise from up, with
/// diagonals taking precedence over single directions and a model-specific
/// idle value when nothing is pressed.
pub open spec fn spec_hat_position(
    up: bool,
    down: bool,
    left: bool,
    right: bool,
    idle: u8,
) -> u8 {
    if down && right {
        0x3
    } else if down && left {
        0x5
    } else if up && right {
        0x1
    } else if up && left {
        0x7
    } else if right {
        0x2
    } else if left {
        0x6
    } else if down {
        0x4
    } else if up {
        0x0
    } else {
        idle
    }
}

/// Encode the directional pad as a hat-switch value.
pub(crate) fn hat_position(up: bool, down: bool, left: bool, right: bool, idle: u8) -> (r: u8)
    ensures
        r == spec_hat_position(up, down, left, right, idle),
{
    let mut dpad: u8 = idle;
    if up {
        dpad = 0x0
    }
    if down {
        dpad = 0x4
    }
    if left {
        dpad = 0x6
    }
    if right {
        dpad = 0x2
    }
    if up && left {
        dpad = 0x7
    }
    if up && right {
        dpad = 0x1
    }
    if down && left {
        dpad = 0x5
    }
    if down && right {
        dpad = 0x3
    }
    dpad
}

/// The string-descriptor block every model sends: one English (US) string
/// table with no entries.
pub open spec fn spec_string_descriptors() -> Seq<u8> {
    seq![
        0x02u8, 0x00, 0x00, 0x00, 0x10, 0x00, 0x00, 0x00, 0x00, 0x00, 0x00, 0x00, 0x00, 0x00,
        0x00, 0x00,
    ]
}

/// The raw string-descriptor byte block shared by all models.
pub fn string_descriptors() -> (r: Vec<u8>)
    ensures
        r@ == spec_string_descriptors(),
{
    let block: [u8; 16] = [
        0x02, 0x00, 0x00, 0x00, 0x10, 0x00, 0x00, 0x00, 0x00, 0x00, 0x00, 0x00, 0x00, 0x00, 0x00,
        0x00,
    ];
    let r = vstd::slice::slice_to_vec(block.as_slice());
    proof {
        assert(r@ =~= spec_string_descriptors());
    }
    r
}

/// Which model a startup snapshot selects: a fixed priority chain, first
/// match wins. Right picks the one-handle Type 2, up the Switch
/// controller, down at power 0 the PlayStation controller, D the Type 2,
/// B the Shinkansen controller, and C one of the four multi-train
/// controller modes chosen by the power notch. No match selects nothing.
pub open spec fn spec_set_model(s: ControllerState) -> Option<ControllerModel> {
    if s.button_right {
        Some(ControllerModel::DGOC44U)
    } else if s.button_up {
        Some(ControllerModel::ZKNS001)
    } else if s.button_down && s.power == 0 {
        Some(ControllerModel::SLPH00051)
    } else if s.button_d {
        Some(ControllerModel::TCPP20009)
    } else if s.button_b {
        Some(ControllerModel::TCPP20011)
    } else if s.button_c && s.power == 0 {
        Some(ControllerModel::SOTP031201P4B7)
    } else if s.button_c && s.power == 1 {
        Some(ControllerModel::SOTP031201P4B2B7)
    } else if s.button_c && s.power == 2 {
        Some(ControllerModel::SOTP031201P5B5)
    } else if s.button_c && s.power == 3 {
        Some(ControllerModel::SOTP031201P5B7)
    } else {
        None
    }
}

/// Decide once, at startup, which model to emulate. Run exactly once per
/// process lifetime; a caller that gets nothing back creates no gadget
/// and falls back to its idle behaviour.
pub fn set_model(state: &ControllerState) -> (m: Option<ControllerModel>)
    ensures
        m == spec_set_model(*state),
{
    if state.button_right {
        Some(ControllerModel::DGOC44U)
    } else if state.button_up {
        Some(ControllerModel::ZKNS001)
    } else if state.button_down && state.power == 0 {
        Some(ControllerModel::SLPH00051)
    } else if state.button_d {
        Some(ControllerModel::TCPP20009)
    } else if state.button_b {
        Some(ControllerModel::TCPP20011)
    } else if state.button_c && state.power == 0 {
        Some(ControllerModel::SOTP031201P4B7)
    } else if state.button_c && state.power == 1 {
        Some(ControllerModel::SOTP031201P4B2B7)
    } else if state.button_c && state.power == 2 {
        Some(ControllerModel::SOTP031201P5B5)
    } else if state.button_c && state.power == 3 {
        Some(ControllerModel::SOTP031201P5B7)
    } else {
        None
    }
}

/// The snapshot after one encode for the given model: only the two
/// chord-capable models move the combo latch or the reverser.
pub open spec fn spec_set_state_next(s: ControllerState, m: ControllerModel) -> ControllerState {
    match m {
        ControllerModel::SOTP031201P5B5 => sotp031201_p5b5::spec_next(s),
        ControllerModel::ZKNS001 => zkns001::spec_next(s),
        _ => s,
    }
}

/// The report one encode produces for the given model. The two
/// multi-train P4 modes carry no encoder in this crate, so they produce
/// an empty report.
pub open spec fn spec_set_state_report(s: ControllerState, m: ControllerModel) -> Seq<u8> {
    match m {
        ControllerModel::DGOC44U => dgoc44u::spec_update(s),
        ControllerModel::TCPP20009 => tcpp20009::spec_update(s),
        ControllerModel::TCPP20011 => tcpp20011::spec_update(s),
        ControllerModel::SOTP031201P4B7 => Seq::empty(),
        ControllerModel::SOTP031201P4B2B7 => Seq::empty(),
        ControllerModel::SOTP031201P5B5 => sotp031201_p5b5::spec_update(s),
        ControllerModel::SOTP031201P5B7 => sotp031201_p5b7::spec_update(s),
        ControllerModel::ZKNS001 => zkns001::spec_update(s),
        ControllerModel::SLPH00051 => generic::spec_update(s),
    }
}

/// Encode one report for the selected model, consuming any chord the
/// model supports. The caller writes the bytes to the report channel; an
/// empty report means there is nothing to write this cycle.
pub fn set_state(state: &mut ControllerState, model: &ControllerModel) -> (report: Vec<u8>)
    requires
        crate::physical::wf(*old(state)),
    ensures
        *final(state) == spec_set_state_next(*old(state), *model),
        crate::physical::wf(*final(state)),
        report@ == spec_set_state_report(*old(state), *model),
{
    match *model {
        ControllerModel::DGOC44U => dgoc44u::update_gadget(state),
        ControllerModel::TCPP20009 => tcpp20009::update_gadget(state),
        ControllerModel::TCPP20011 => tcpp20011::update_gadget(state),
        ControllerModel::SOTP031201P4B7 => Vec::new(),
        ControllerModel::SOTP031201P4B2B7 => Vec::new(),
        ControllerModel::SOTP031201P5B5 => sotp031201_p5b5::update_gadget(state),
        ControllerModel::SOTP031201P5B7 => sotp031201_p5b7::update_gadget(state),
        ControllerModel::ZKNS001 => zkns001::update_gadget(state),
        ControllerModel::SLPH00051 => generic::update_gadget(state),
    }
}

/// The HID report descriptor for the models that carry one.
pub open spec fn spec_hid_report(m: ControllerModel) -> Option<Seq<u8>> {
    match m {
        ControllerModel::ZKNS001 => Some(zkns001::spec_hid_report_descriptor()),
        ControllerModel::SLPH00051 => Some(generic::spec_hid_report_descriptor()),
        _ => None,
    }
}

/// What a control request is answered with: a get-descriptor request for
/// the HID report (request 6 for descriptor type 34) returns the model's
/// report descriptor if it carries one; any other request is forwarded to
/// the PlayStation model's vendor handler and otherwise ignored.
pub open spec fn spec_ctrl_response(m: ControllerModel, data: Seq<u8>) -> Option<Seq<u8>> {
    if data[1] == 6 && data[3] == 34 {
        spec_hid_report(m)
    } else if m is SLPH00051 {
        generic::spec_ctrl_response(data)
    } else {
        None
    }
}

/// Answer one control-channel request for the selected model: the bytes
/// to write back on the control channel, or nothing. `data` is the
/// eight-byte USB setup packet.
pub fn handle_ctrl_transfer(model: ControllerModel, data: &[u8]) -> (r: Option<Vec<u8>>)
    requires
        data@.len() == 8,
    ensures
        match r {
            Some(v) => spec_ctrl_response(model, data@) == Some(v@),
            None => spec_ctrl_response(model, data@) is None,
        },
{
    if *vstd::slice::slice_index_get(data, 1) == 6 && *vstd::slice::slice_index_get(data, 3)
        == 34 {
        // Get HID report descriptor
        match model {
            ControllerModel::ZKNS001 => Some(zkns001::hid_report_descriptor()),
            ControllerModel::SLPH00051 => Some(generic::hid_report_descriptor()),
            _ => None,
        }
    } else {
        match model {
            ControllerModel::SLPH00051 => generic::handle_ctrl_transfer(data),
            _ => None,
        }
    }
}

/// The descriptor bundle a model registers itself with: its USB identity,
/// its configuration-descriptor block and its string-descriptor block.
/// The one-handle Type 2 and the two multi-train P4 modes carry no
/// descriptor blocks in this crate.
pub fn model_descriptors(model: &ControllerModel) -> (r: Option<
    (DeviceDescriptor, Vec<u8>, Vec<u8>),
>)
    ensures
        match *model {
            ControllerModel::DGOC44U => r is None,
            ControllerModel::SOTP031201P4B7 => r is None,
            ControllerModel::SOTP031201P4B2B7 => r is None,
            ControllerModel::TCPP20009 => r matches Some(t) && t.0.id_vendor == 0x0AE4
                && t.0.id_product == 0x0004 && t.1@ == tcpp20009::spec_descriptors() && t.2@
                == spec_string_descriptors(),
            ControllerModel::TCPP20011 => r matches Some(t) && t.0.id_vendor == 0x0AE4
                && t.0.id_product == 0x0005 && t.1@ == tcpp20011::spec_descriptors() && t.2@
                == spec_string_descriptors(),
            ControllerModel::SOTP031201P5B5 => r matches Some(t) && t.0.id_vendor == 0x1C06
                && t.0.id_product == 0x77A7 && t.1@ == sotp031201_p5b5::spec_descriptors()
                && t.2@ == spec_string_descriptors(),
            ControllerModel::SOTP031201P5B7 => r matches Some(t) && t.0.id_vendor == 0x0AE4
                && t.0.id_product == 0x0101 && t.1@ == sotp031201_p5b7::spec_descriptors()
                && t.2@ == spec_string_descriptors(),
            ControllerModel::ZKNS001 => r matches Some(t) && t.0.id_vendor == 0x33DD
                && t.0.id_product == 0x0001 && t.1@ == zkns001::spec_descriptors() && t.2@
                == spec_string_descriptors(),
            ControllerModel::SLPH00051 => r matches Some(t) && t.0.id_vendor == 0x054C
                && t.0.id_product == 0x0268 && t.1@ == generic::spec_descriptors() && t.2@
                == spec_string_descriptors(),
        },
{
    match *model {
        ControllerModel::DGOC44U => None,
        ControllerModel::SOTP031201P4B7 => None,
        ControllerModel::SOTP031201P4B2B7 => None,
        ControllerModel::TCPP20009 => Some(
            (tcpp20009::device_descriptor(), tcpp20009::descriptors(), string_descriptors()),
        ),
        ControllerModel::TCPP20011 => Some(
            (tcpp20011::device_descriptor(), tcpp20011::descriptors(), string_descriptors()),
        ),
        ControllerModel::SOTP031201P5B5 => Some(
            (
                sotp031201_p5b5::device_descriptor(),
                sotp031201_p5b5::descriptors(),
                string_descriptors(),
            ),
        ),
        ControllerModel::SOTP031201P5B7 => Some(
            (
                sotp031201_p5b7::device_descriptor(),
                sotp031201_p5b7::descriptors(),
                string_descriptors(),
            ),
        ),
        ControllerModel::ZKNS001 => Some(
            (zkns001::device_descriptor(), zkns001::descriptors(), string_descriptors()),
        ),
        ControllerModel::SLPH00051 => Some(
            (generic::device_descriptor(), generic::descriptors(), string_descriptors()),
        ),
    }
}

/// The selector is a pure function of the snapshot, decided in a fixed
/// priority order: when several trigger conditions hold at once, the
/// earlier one in the chain wins and the later ones are never reached.
pub proof fn lemma_selector_priority(s: ControllerState)
    ensures
        s.button_right ==> spec_set_model(s) == Some(ControllerModel::DGOC44U),
        !s.button_right && s.button_up ==> spec_set_model(s) == Some(ControllerModel::ZKNS001),
        !s.button_right && !s.button_up && s.button_down && s.power == 0 ==> spec_set_model(s)
            == Some(ControllerModel::SLPH00051),
        !s.button_right && !s.button_up && !(s.button_down && s.power == 0) && s.button_d
            ==> spec_set_model(s) == Some(ControllerModel::TCPP20009),
        !s.button_right && !s.button_up && !(s.button_down && s.power == 0) && !s.button_d
            && s.button_b ==> spec_set_model(s) == Some(ControllerModel::TCPP20011),
        !s.button_right && !s.button_up && !(s.button_down && s.power == 0) && !s.button_d
            && !s.button_b && s.button_c && s.power == 2 ==> spec_set_model(s) == Some(
            ControllerModel::SOTP031201P5B5,
        ),
        !s.button_right && !s.button_up && !s.button_down && !s.button_d && !s.button_b
            && !s.button_c ==> spec_set_model(s) is None,
{
}

/// Encoding is idempotent: one encode only latches the combo flag and
/// pins the reverser, so encoding again from the updated snapshot leaves
/// the snapshot as it is and produces byte-identical output.
pub proof fn lemma_set_state_idempotent(s: ControllerState, m: ControllerModel)
    requires
        crate::physical::wf(s),
    ensures
        spec_set_state_next(spec_set_state_next(s, m), m) == spec_set_state_next(s, m),
        spec_set_state_report(spec_set_state_next(s, m), m) == spec_set_state_report(s, m),
{
    let s1 = spec_set_state_next(s, m);
    match m {
        ControllerModel::SOTP031201P5B5 => {
            assert(spec_set_state_report(s1, m) =~= spec_set_state_report(s, m));
        },
        ControllerModel::ZKNS001 => {
            assert(spec_set_state_report(s1, m) =~= spec_set_state_report(s, m));
        },
        _ => {},
    }
}

} // verus!
