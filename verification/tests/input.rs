use ddgo_pnp_controller::emulated::set_state;
use ddgo_pnp_controller::emulated::ControllerModel;
use ddgo_pnp_controller::physical::read_input;
use ddgo_pnp_controller::physical::ControllerState;
use ddgo_pnp_controller::physical::InputKey;
use ddgo_pnp_controller::physical::HOLD_DELAY_MS;

#[test]
fn notch_keys_pin_the_levers() {
    let mut s = ControllerState::default();
    read_input(&mut s, InputKey::Key3, true, 0);
    assert_eq!(s.power, 3);
    read_input(&mut s, InputKey::Key5, true, 0);
    assert_eq!(s.power, 5);
    // A released notch key changes nothing.
    read_input(&mut s, InputKey::Key0, false, 0);
    assert_eq!(s.power, 5);
    read_input(&mut s, InputKey::KeyP, true, 0);
    assert_eq!(s.brake, 9);
    read_input(&mut s, InputKey::KeyB, true, 0);
    assert_eq!(s.brake, 0);
}

#[test]
fn button_keys_mirror_their_flags() {
    let mut s = ControllerState::default();
    read_input(&mut s, InputKey::KeyA, true, 0);
    assert!(s.button_a);
    read_input(&mut s, InputKey::KeyA, false, 0);
    assert!(!s.button_a);
    read_input(&mut s, InputKey::Enter, true, 0);
    assert!(s.button_start);
    read_input(&mut s, InputKey::Up, true, 0);
    assert!(s.button_up);
    read_input(&mut s, InputKey::KeyZ, true, 0);
    assert!(s.button_b);
    read_input(&mut s, InputKey::KeyX, true, 0);
    assert!(s.button_c);
    read_input(&mut s, InputKey::KeyS, true, 0);
    assert!(s.button_d);
    read_input(&mut s, InputKey::Down, true, 0);
    read_input(&mut s, InputKey::Left, true, 0);
    read_input(&mut s, InputKey::Right, true, 0);
    assert!(s.button_down && s.button_left && s.button_right);
}

#[test]
fn holding_select_past_the_threshold_sets_the_hold_flag() {
    let mut s = ControllerState::default();
    read_input(&mut s, InputKey::Space, true, 1000);
    assert!(s.button_select);
    assert!(!s.button_select_hold);
    assert_eq!(s.button_select_time, Some(1000));

    // Still short of the threshold.
    read_input(&mut s, InputKey::Space, true, 1000 + HOLD_DELAY_MS - 1);
    assert!(!s.button_select_hold);

    // At the threshold the flag flips.
    read_input(&mut s, InputKey::Space, true, 1000 + HOLD_DELAY_MS);
    assert!(s.button_select_hold);
}

#[test]
fn releasing_before_the_threshold_prevents_the_hold() {
    let mut s = ControllerState::default();
    read_input(&mut s, InputKey::Space, true, 0);
    read_input(&mut s, InputKey::Space, false, 500);
    assert!(!s.button_select);
    assert!(!s.button_select_hold);
    assert_eq!(s.button_select_time, None);

    // A fresh press restarts the timer: the earlier press time is gone.
    read_input(&mut s, InputKey::Space, true, 600);
    read_input(&mut s, InputKey::Space, true, 1000);
    assert!(!s.button_select_hold);
    read_input(&mut s, InputKey::Space, true, 600 + HOLD_DELAY_MS);
    assert!(s.button_select_hold);
}

#[test]
fn a_fired_combo_blocks_the_hold_for_that_press() {
    let mut s = ControllerState::default();
    read_input(&mut s, InputKey::Space, true, 0);
    // An encoder consumes a chord during the press.
    s.combo = true;
    read_input(&mut s, InputKey::Space, true, 2 * HOLD_DELAY_MS);
    assert!(!s.button_select_hold);

    // Releasing select clears the combo latch, so the next press can
    // reach the held state again.
    read_input(&mut s, InputKey::Space, false, 2 * HOLD_DELAY_MS + 10);
    assert!(!s.combo);
    read_input(&mut s, InputKey::Space, true, 3000);
    read_input(&mut s, InputKey::Space, true, 3000 + HOLD_DELAY_MS);
    assert!(s.button_select_hold);
}

#[test]
fn default_state_is_all_idle() {
    let s = ControllerState::default();
    assert_eq!(s.power, 0);
    assert_eq!(s.brake, 0);
    assert!(!s.button_select && !s.button_select_hold);
    assert_eq!(s.button_select_time, None);
    assert!(!s.button_start && !s.button_a && !s.button_b && !s.button_c && !s.button_d);
    assert!(!s.button_up && !s.button_down && !s.button_left && !s.button_right);
    assert!(!s.lamp && !s.rumble && !s.combo);
    assert_eq!(s.reverser, 0);
}

#[test]
fn keyed_input_drives_the_encoder() {
    let mut s = ControllerState::default();
    read_input(&mut s, InputKey::Key2, true, 0);
    read_input(&mut s, InputKey::KeyA, true, 0);
    let r = set_state(&mut s, &ControllerModel::TCPP20009);
    assert_eq!(r, vec![0x1, 0x79, 0x54, 0xFF, 0x8, 0x2]);
}
