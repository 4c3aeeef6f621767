//! Normalized snapshot of the physical control panel and the key-event
//! logic that refreshes it.
//!
//! The OS input collaborator (which owns the event devices) converts each
//! raw key event into an [`InputKey`] plus a pressed flag and the current
//! time in milliseconds, and hands them to [`read_input`].

use vstd::prelude::*;

verus! {

/// Milliseconds the select button must stay pressed, with no combo fired,
/// before it counts as held.
pub const HOLD_DELAY_MS: u64 = 750;

/// Snapshot of all physical inputs, refreshed every cycle.
///
/// `power` ranges over 0..=5 and `brake` over 0..=9 (notch indices).
/// `button_select_hold` is derived: true only after select has been pressed
/// continuously for at least [`HOLD_DELAY_MS`] with no combo fired.
/// `combo` is set by an encoder when it consumes a chord this cycle and is
/// cleared when select is released. `reverser` is written only by combo
/// handling in the models that support it.
#[derive(Clone, Copy)]
pub struct ControllerState {
    pub power: u8,
    pub brake: u8,
    pub button_select: bool,
    pub button_select_hold: bool,
    pub button_select_time: Option<u64>,
    pub button_start: bool,
    pub button_a: bool,
    pub button_b: bool,
    pub button_c: bool,
    pub button_d: bool,
    pub button_up: bool,
    pub button_down: bool,
    pub button_left: bool,
    pub button_right: bool,
    pub lamp: bool,
    pub rumble: bool,
    pub combo: bool,
    pub reverser: u8,
}

/// The encoders index their notch tables by `power` and `brake` directly,
/// and the reverser value is added into a handle byte, so a state is
/// well formed when the notches are in range and the reverser holds one of
/// the three gear codes.
pub open spec fn wf(s: ControllerState) -> bool {
    &&& s.power <= 5
    &&& s.brake <= 9
    &&& (s.reverser == 0x00 || s.reverser == 0x10 || s.reverser == 0x20)
}

impl Default for ControllerState {
    /// The all-idle state: notches at 0, nothing pressed, no combo fired.
    fn default() -> (s: Self)
        ensures
            s == spec_default_state(),
            wf(s),
    {
        ControllerState {
            power: 0,
            brake: 0,
            button_select: false,
            button_select_hold: false,
            button_select_time: None,
            button_start: false,
            button_a: false,
            button_b: false,
            button_c: false,
            button_d: false,
            button_up: false,
            button_down: false,
            button_left: false,
            button_right: false,
            lamp: false,
            rumble: false,
            combo: false,
            reverser: 0,
        }
    }
}

pub open spec fn spec_default_state() -> ControllerState {
    ControllerState {
        power: 0,
        brake: 0,
        button_select: false,
        button_select_hold: false,
        button_select_time: None,
        button_start: false,
        button_a: false,
        button_b: false,
        button_c: false,
        button_d: false,
        button_up: false,
        button_down: false,
        button_left: false,
        button_right: false,
        lamp: false,
        rumble: false,
        combo: false,
        reverser: 0,
    }
}

/// The keys of the control panel, as the input devices report them.
#[derive(Clone, Copy, PartialEq, Eq, Structural, Debug)]
pub enum InputKey {
    Key0,
    Key1,
    Key2,
    Key3,
    Key4,
    Key5,
    KeyB,
    KeyC,
    KeyD,
    KeyE,
    KeyF,
    KeyG,
    KeyH,
    KeyI,
    KeyJ,
    KeyP,
    Space,
    Enter,
    KeyA,
    KeyZ,
    KeyX,
    KeyS,
    Up,
    Down,
    Left,
    Right,
}

/// How one select-button event updates the select, hold, timer and combo
/// fields. The timer starts on a fresh press and clears on release; a
/// release also clears the combo latch. The hold flag becomes true exactly
/// when the press has lasted at least [`HOLD_DELAY_MS`] and no combo has
/// fired during it.
pub open spec fn spec_select_input(s: ControllerState, value: bool, now_ms: u64) -> ControllerState {
    let time = if !s.button_select && value {
        Some(now_ms)
    } else if !value {
        None
    } else {
        s.button_select_time
    };
    let combo = if value {
        s.combo
    } else {
        false
    };
    let hold = match time {
        Some(t) => now_ms >= t && now_ms - t >= HOLD_DELAY_MS && !combo,
        None => value,
    };
    ControllerState {
        button_select: value,
        button_select_hold: hold,
        button_select_time: time,
        combo,
        ..s
    }
}

/// How one key event updates the snapshot.
pub open spec fn spec_read_input(
    s: ControllerState,
    key: InputKey,
    value: bool,
    now_ms: u64,
) -> ControllerState {
    match key {
        InputKey::Key0 => if value { ControllerState { power: 0, ..s } } else { s },
        InputKey::Key1 => if value { ControllerState { power: 1, ..s } } else { s },
        InputKey::Key2 => if value { ControllerState { power: 2, ..s } } else { s },
        InputKey::Key3 => if value { ControllerState { power: 3, ..s } } else { s },
        InputKey::Key4 => if value { ControllerState { power: 4, ..s } } else { s },
        InputKey::Key5 => if value { ControllerState { power: 5, ..s } } else { s },
        InputKey::KeyB => if value { ControllerState { brake: 0, ..s } } else { s },
        InputKey::KeyC => if value { ControllerState { brake: 1, ..s } } else { s },
        InputKey::KeyD => if value { ControllerState { brake: 2, ..s } } else { s },
        InputKey::KeyE => if value { ControllerState { brake: 3, ..s } } else { s },
        InputKey::KeyF => if value { ControllerState { brake: 4, ..s } } else { s },
        InputKey::KeyG => if value { ControllerState { brake: 5, ..s } } else { s },
        InputKey::KeyH => if value { ControllerState { brake: 6, ..s } } else { s },
        InputKey::KeyI => if value { ControllerState { brake: 7, ..s } } else { s },
        InputKey::KeyJ => if value { ControllerState { brake: 8, ..s } } else { s },
        InputKey::KeyP => if value { ControllerState { brake: 9, ..s } } else { s },
        InputKey::Space => spec_select_input(s, value, now_ms),
        InputKey::Enter => ControllerState { button_start: value, ..s },
        InputKey::KeyA => ControllerState { button_a: value, ..s },
        InputKey::KeyZ => ControllerState { button_b: value, ..s },
        InputKey::KeyX => ControllerState { button_c: value, ..s },
        InputKey::KeyS => ControllerState { button_d: value, ..s },
        InputKey::Up => ControllerState { button_up: value, ..s },
        InputKey::Down => ControllerState { button_down: value, ..s },
        InputKey::Left => ControllerState { button_left: value, ..s },
        InputKey::Right => ControllerState { button_right: value, ..s },
    }
}

/// Save one select-button event, updating the press timer, the hold flag
/// and the combo latch as [`spec_select_input`] describes.
fn select_input(controller: &mut ControllerState, value: bool, now_ms: u64)
    ensures
        *final(controller) == spec_select_input(*old(controller), value, now_ms),
{
    if !controller.button_select && value {
        controller.button_select_time = Some(now_ms);
    } else if !value {
        controller.button_select_time = None;
        controller.combo = false;
    }
    controller.button_select = value;
    controller.button_select_hold = value;
    if let Some(time) = controller.button_select_time {
        controller.button_select_hold = now_ms >= time && now_ms - time >= HOLD_DELAY_MS
            && !controller.combo;
    }
}

/// Save one notch-key event: each of these keys, while pressed, pins the
/// power or brake lever to one notch.
fn notch_input(controller: &mut ControllerState, key: InputKey, value: bool, now_ms: u64)
    requires
        key is Key0 || key is Key1 || key is Key2 || key is Key3 || key is Key4 || key is Key5
            || key is KeyB || key is KeyC || key is KeyD || key is KeyE || key is KeyF
            || key is KeyG || key is KeyH || key is KeyI || key is KeyJ || key is KeyP,
    ensures
        *final(controller) == spec_read_input(*old(controller), key, value, now_ms),
{
    match key {
        InputKey::Key0 => if value { controller.power = 0 },
        InputKey::Key1 => if value { controller.power = 1 },
        InputKey::Key2 => if value { controller.power = 2 },
        InputKey::Key3 => if value { controller.power = 3 },
        InputKey::Key4 => if value { controller.power = 4 },
        InputKey::Key5 => if value { controller.power = 5 },
        InputKey::KeyB => if value { controller.brake = 0 },
        InputKey::KeyC => if value { controller.brake = 1 },
        InputKey::KeyD => if value { controller.brake = 2 },
        InputKey::KeyE => if value { controller.brake = 3 },
        InputKey::KeyF => if value { controller.brake = 4 },
        InputKey::KeyG => if value { controller.brake = 5 },
        InputKey::KeyH => if value { controller.brake = 6 },
        InputKey::KeyI => if value { controller.brake = 7 },
        InputKey::KeyJ => if value { controller.brake = 8 },
        InputKey::KeyP => if value { controller.brake = 9 },
        _ => {},
    }
}

/// Save one button event: each of these keys mirrors one button flag.
fn button_input(controller: &mut ControllerState, key: InputKey, value: bool, now_ms: u64)
    requires
        key is Enter || key is KeyA || key is KeyZ || key is KeyX || key is KeyS || key is Up
            || key is Down || key is Left || key is Right,
    ensures
        *final(controller) == spec_read_input(*old(controller), key, value, now_ms),
{
    match key {
        InputKey::Enter => controller.button_start = value,
        InputKey::KeyA => controller.button_a = value,
        InputKey::KeyZ => controller.button_b = value,
        InputKey::KeyX => controller.button_c = value,
        InputKey::KeyS => controller.button_d = value,
        InputKey::Up => controller.button_up = value,
        InputKey::Down => controller.button_down = value,
        InputKey::Left => controller.button_left = value,
        InputKey::Right => controller.button_right = value,
        _ => {},
    }
}

/// Save one key event into the snapshot. `now_ms` is the current time in
/// milliseconds on any clock that never runs backwards; it is read only by
/// the select-button hold logic.
pub fn read_input(controller: &mut ControllerState, key: InputKey, value: bool, now_ms: u64)
    ensures
        *final(controller) == spec_read_input(*old(controller), key, value, now_ms),
{
    match key {
        InputKey::Space => select_input(controller, value, now_ms),
        InputKey::Enter | InputKey::KeyA | InputKey::KeyZ | InputKey::KeyX | InputKey::KeyS
            | InputKey::Up | InputKey::Down | InputKey::Left | InputKey::Right => button_input(
            controller,
            key,
            value,
            now_ms,
        ),
        _ => notch_input(controller, key, value, now_ms),
    }
}

/// A key event keeps the snapshot well formed: the notch keys write only
/// in-range notch values, and no key touches the reverser.
pub proof fn lemma_read_input_wf(s: ControllerState, key: InputKey, value: bool, now_ms: u64)
    requires
        wf(s),
    ensures
        wf(spec_read_input(s, key, value, now_ms)),
{
}

/// Hold detection: while select stays pressed, the hold flag is true
/// exactly when the press is at least [`HOLD_DELAY_MS`] old and no combo
/// has fired during it; releasing select clears the flag, the timer and
/// the combo latch, so the flag can never become true for that press.
pub proof fn lemma_hold_detection(s: ControllerState, t: u64, now_ms: u64)
    requires
        s.button_select,
        s.button_select_time == Some(t),
    ensures
        spec_read_input(s, InputKey::Space, true, now_ms).button_select_hold <==> (now_ms >= t
            && now_ms - t >= HOLD_DELAY_MS && !s.combo),
        !spec_read_input(s, InputKey::Space, false, now_ms).button_select_hold,
        spec_read_input(s, InputKey::Space, false, now_ms).button_select_time is None,
        !spec_read_input(s, InputKey::Space, false, now_ms).combo,
{
}

/// A fresh press of select can never start in the held state: the timer is
/// set to the moment of the press, so the press is not yet old enough.
pub proof fn lemma_fresh_press_not_held(s: ControllerState, now_ms: u64)
    requires
        !s.button_select,
    ensures
        !spec_read_input(s, InputKey::Space, true, now_ms).button_select_hold,
{
}

} // verus!
