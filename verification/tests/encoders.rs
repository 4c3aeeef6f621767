use ddgo_pnp_controller::emulated::set_state;
use ddgo_pnp_controller::emulated::ControllerModel;
use ddgo_pnp_controller::emulated::dgoc44u;
use ddgo_pnp_controller::emulated::generic;
use ddgo_pnp_controller::emulated::sotp031201_p5b5;
use ddgo_pnp_controller::emulated::sotp031201_p5b7;
use ddgo_pnp_controller::emulated::tcpp20004;
use ddgo_pnp_controller::emulated::tcpp20009;
use ddgo_pnp_controller::emulated::tcpp20011;
use ddgo_pnp_controller::emulated::vok00106;
use ddgo_pnp_controller::emulated::zkns001;
use ddgo_pnp_controller::physical::ControllerState;

fn state_with(power: u8, brake: u8) -> ControllerState {
    let mut s = ControllerState::default();
    s.power = power;
    s.brake = brake;
    s
}

#[test]
fn dgoc44u_notch_bytes() {
    let power_tab: [u8; 6] = [0x81, 0x6D, 0x54, 0x3F, 0x21, 0x00];
    let brake_tab: [u8; 10] = [0x79, 0x8A, 0x94, 0x9A, 0xA2, 0xA8, 0xAF, 0xB2, 0xB5, 0xB9];
    for p in 0..=5u8 {
        for b in 0..=9u8 {
            let mut s = state_with(p, b);
            let r = dgoc44u::update_gadget(&mut s);
            assert_eq!(r[0], brake_tab[b as usize]);
            assert_eq!(r[1], power_tab[p as usize]);
        }
    }
}

#[test]
fn tcpp20009_notch_bytes() {
    let power_tab: [u8; 6] = [0x81, 0x6D, 0x54, 0x3F, 0x21, 0x00];
    let brake_tab: [u8; 10] = [0x79, 0x8A, 0x94, 0x9A, 0xA2, 0xA8, 0xAF, 0xB2, 0xB5, 0xB9];
    for p in 0..=5u8 {
        for b in 0..=9u8 {
            let mut s = state_with(p, b);
            let r = tcpp20009::update_gadget(&mut s);
            assert_eq!(r[1], brake_tab[b as usize]);
            assert_eq!(r[2], power_tab[p as usize]);
        }
    }
}

#[test]
fn tcpp20011_notch_bytes() {
    let power_tab: [u8; 6] = [0x12, 0x36, 0x5A, 0x90, 0xC6, 0xFB];
    let brake_tab: [u8; 10] = [0x1C, 0x38, 0x54, 0x70, 0x8B, 0xA7, 0xC3, 0xDF, 0xDF, 0xFB];
    for p in 0..=5u8 {
        for b in 0..=9u8 {
            let mut s = state_with(p, b);
            let r = tcpp20011::update_gadget(&mut s);
            assert_eq!(r[0], brake_tab[b as usize]);
            assert_eq!(r[1], power_tab[p as usize]);
        }
    }
}

#[test]
fn sotp031201_p5b5_handle_brake_overrides_power() {
    let power_tab: [u8; 6] = [0x07, 0x08, 0x09, 0x0A, 0x0B, 0x0C];
    let brake_tab: [u8; 10] = [0x07, 0x06, 0x05, 0x04, 0x03, 0x02, 0x02, 0x02, 0x02, 0x01];
    for p in 0..=5u8 {
        for b in 0..=9u8 {
            let mut s = state_with(p, b);
            let r = sotp031201_p5b5::update_gadget(&mut s);
            let expected = if b > 0 { brake_tab[b as usize] } else { power_tab[p as usize] };
            assert_eq!(r[1], expected);
        }
    }
}

#[test]
fn sotp031201_p5b7_handle_brake_overrides_power() {
    let power_tab: [u8; 6] = [0x09, 0x0A, 0x0B, 0x0C, 0x0D, 0x0E];
    let brake_tab: [u8; 10] = [0x09, 0x08, 0x07, 0x06, 0x05, 0x04, 0x03, 0x02, 0x02, 0x01];
    for p in 0..=5u8 {
        for b in 0..=9u8 {
            let mut s = state_with(p, b);
            let r = sotp031201_p5b7::update_gadget(&mut s);
            let expected = if b > 0 { brake_tab[b as usize] } else { power_tab[p as usize] };
            assert_eq!(r[1], expected);
        }
    }
}

#[test]
fn zkns001_handle_brake_overrides_power() {
    let power_tab: [u8; 6] = [0x80, 0x9F, 0xB7, 0xCE, 0xE6, 0xFF];
    let brake_tab: [u8; 10] = [0x80, 0x65, 0x57, 0x49, 0x3C, 0x2E, 0x20, 0x13, 0x05, 0x00];
    for p in 0..=5u8 {
        for b in 0..=9u8 {
            let mut s = state_with(p, b);
            let r = zkns001::update_gadget(&mut s);
            let expected = if b > 0 { brake_tab[b as usize] } else { power_tab[p as usize] };
            assert_eq!(r[4], expected);
        }
    }
}

#[test]
fn generic_notch_bytes_no_override() {
    let power_tab: [u8; 6] = [0x80, 0x94, 0xAC, 0xCC, 0xE4, 0xFF];
    let brake_tab: [u8; 10] = [0x80, 0x91, 0x9F, 0xAD, 0xBB, 0xC9, 0xD7, 0xE5, 0xF3, 0xFF];
    for p in 0..=5u8 {
        for b in 0..=9u8 {
            let mut s = state_with(p, b);
            let r = generic::update_gadget(&mut s);
            assert_eq!(r[6], power_tab[p as usize]);
            assert_eq!(r[7], brake_tab[b as usize]);
        }
    }
}

#[test]
fn tcpp20004_notch_ladders() {
    // The mask's second byte carries the brake ladder (bits 2..=5) and
    // the low power bits (6 and 7); its third byte the last power bit.
    let brake_ladder: [u8; 10] = [0x38, 0x34, 0x30, 0x2C, 0x28, 0x24, 0x20, 0x1C, 0x18, 0x00];
    let power_low: [u8; 6] = [0x80, 0x40, 0x00, 0xC0, 0x80, 0x40];
    let power_high: [u8; 6] = [0x01, 0x01, 0x01, 0x00, 0x00, 0x00];
    for p in 0..=5u8 {
        for b in 0..=9u8 {
            let mut s = state_with(p, b);
            let r = tcpp20004::update_gadget(&mut s);
            assert_eq!(r[3], brake_ladder[b as usize] + power_low[p as usize]);
            assert_eq!(r[4], power_high[p as usize]);
        }
    }
}

#[test]
fn vok00106_handle_tokens() {
    let power_tok: [&[u8]; 6] = [b"TSA50", b"TSA55", b"TSA65", b"TSA75", b"TSA85", b"TSA95"];
    let brake_tok: [&[u8]; 10] = [
        b"TSA50", b"TSA45", b"TSA35", b"TSA25", b"TSA15", b"TSA05", b"TSE99", b"TSB40", b"TSB30",
        b"TSB20",
    ];
    for p in 0..=5u8 {
        for b in 0..=9u8 {
            let mut s = state_with(p, b);
            let r = vok00106::update_gadget(&mut s);
            let expected = if b > 0 { brake_tok[b as usize] } else { power_tok[p as usize] };
            assert_eq!(&r[0..5], expected);
            assert_eq!(r[5], 0x0D);
        }
    }
}

#[test]
fn all_idle_buffers() {
    let mut s = ControllerState::default();
    assert_eq!(dgoc44u::update_gadget(&mut s), vec![0x79, 0x81, 0x0, 0x0, 0x0, 0x0]);
    assert_eq!(tcpp20009::update_gadget(&mut s), vec![0x1, 0x79, 0x81, 0xFF, 0x8, 0x0]);
    assert_eq!(tcpp20011::update_gadget(&mut s), vec![0x1C, 0x12, 0xFF, 0x8, 0x0, 0x0]);
    assert_eq!(sotp031201_p5b5::update_gadget(&mut s), vec![0x1, 0x07, 0x0, 0x0]);
    assert_eq!(sotp031201_p5b7::update_gadget(&mut s), vec![0x1, 0x09, 0x0, 0x0]);
    assert_eq!(tcpp20004::update_gadget(&mut s), vec![0x80, 0x80, 0x0, 0xB8, 0x01, 0x0]);
    assert_eq!(
        zkns001::update_gadget(&mut s),
        vec![0x0, 0x0, 0xF, 0x80, 0x80, 0x80, 0x80, 0x0]
    );
    assert_eq!(
        vok00106::update_gadget(&mut s),
        b"TSA50\rTSX00\rTSY00\rTSZ00\rTSK00\r".to_vec()
    );
    let expected_generic: Vec<u8> = vec![
        0x1, 0x0, 0x0, 0x0, 0x0, 0x0, 0x80, 0x80, 0x80, 0x80, 0x0, 0x0, 0x0, 0x0, 0x0, 0x0, 0x0,
        0x0, 0x0, 0x0, 0x0, 0x0, 0x0, 0x0, 0x0, 0x0, 0x0, 0x0, 0x0, 0x3, 0xEF, 0x14, 0x0, 0x0,
        0x0, 0x0, 0x23, 0x1A, 0x77, 0x1, 0x81, 0x1, 0xFE, 0x1, 0xFE, 0x1, 0xFE, 0x1, 0xFE,
    ];
    assert_eq!(generic::update_gadget(&mut s), expected_generic);
}

#[test]
fn max_power_hits_last_table_entry() {
    // The one-handle Type 2 power table runs from 0x81 down to 0x00:
    // full power must return the table's last entry, not its first.
    let mut s = state_with(5, 0);
    let r = dgoc44u::update_gadget(&mut s);
    assert_eq!(r[1], 0x00);
    let mut s = state_with(5, 0);
    let r = tcpp20009::update_gadget(&mut s);
    assert_eq!(r[2], 0x00);
}

#[test]
fn diagonal_up_left_hat_code() {
    let mut s = ControllerState::default();
    s.button_up = true;
    s.button_left = true;
    let r = zkns001::update_gadget(&mut s);
    assert_eq!(r[2], 0x7);
    let mut s = ControllerState::default();
    s.button_up = true;
    s.button_left = true;
    let r = tcpp20011::update_gadget(&mut s);
    assert_eq!(r[3], 0x7);
    let r = tcpp20009::update_gadget(&mut s);
    assert_eq!(r[4], 0x7);
}

#[test]
fn hat_codes_all_directions() {
    let cases: [(bool, bool, bool, bool, u8); 9] = [
        (false, false, false, false, 0x8),
        (true, false, false, false, 0x0),
        (true, false, false, true, 0x1),
        (false, false, false, true, 0x2),
        (false, true, false, true, 0x3),
        (false, true, false, false, 0x4),
        (false, true, true, false, 0x5),
        (false, false, true, false, 0x6),
        (true, false, true, false, 0x7),
    ];
    for (up, down, left, right, code) in cases {
        let mut s = ControllerState::default();
        s.button_up = up;
        s.button_down = down;
        s.button_left = left;
        s.button_right = right;
        let r = tcpp20009::update_gadget(&mut s);
        assert_eq!(r[4], code);
    }
}

#[test]
fn encoder_idempotent_plain_state() {
    let mut s = state_with(3, 2);
    s.button_a = true;
    s.button_up = true;
    let models = [
        ControllerModel::DGOC44U,
        ControllerModel::TCPP20009,
        ControllerModel::TCPP20011,
        ControllerModel::SOTP031201P5B5,
        ControllerModel::SOTP031201P5B7,
        ControllerModel::ZKNS001,
        ControllerModel::SLPH00051,
    ];
    for m in models {
        let mut s1 = s.clone();
        let first = set_state(&mut s1, &m);
        let second = set_state(&mut s1, &m);
        assert_eq!(first, second);
    }
}

#[test]
fn encoder_idempotent_after_chord() {
    // A fired chord latches the combo flag; encoding again from the
    // mutated snapshot yields byte-identical output.
    let mut s = ControllerState::default();
    s.button_select = true;
    s.button_left = true;
    let m = ControllerModel::ZKNS001;
    let first = set_state(&mut s, &m);
    assert!(s.combo);
    let second = set_state(&mut s, &m);
    assert_eq!(first, second);

    let mut s = ControllerState::default();
    s.button_select = true;
    s.button_up = true;
    let m = ControllerModel::SOTP031201P5B5;
    let first = set_state(&mut s, &m);
    assert!(s.combo);
    assert_eq!(s.reverser, 0x20);
    let second = set_state(&mut s, &m);
    assert_eq!(first, second);
}

#[test]
fn p4_modes_produce_no_report() {
    let mut s = ControllerState::default();
    assert!(set_state(&mut s, &ControllerModel::SOTP031201P4B7).is_empty());
    assert!(set_state(&mut s, &ControllerModel::SOTP031201P4B2B7).is_empty());
}

#[test]
fn combo_suppresses_normal_bits_sotp() {
    // Select+A: the second-A bit (8) replaces the normal A bit (4).
    let mut s = ControllerState::default();
    s.button_select = true;
    s.button_a = true;
    let r = sotp031201_p5b5::update_gadget(&mut s);
    assert_eq!(r[2], 0x08);
    assert!(s.combo);

    // Select+up: the reverser moves and the up bit stays clear.
    let mut s = ControllerState::default();
    s.button_select = true;
    s.button_up = true;
    let r = sotp031201_p5b5::update_gadget(&mut s);
    assert_eq!(r[1], 0x20 + 0x07);
    assert_eq!(r[3], 0x0);
    assert_eq!(s.reverser, 0x20);

    // Select+D: the S bit (1) replaces the normal D bit (2).
    let mut s = ControllerState::default();
    s.button_select = true;
    s.button_d = true;
    let r = sotp031201_p5b5::update_gadget(&mut s);
    assert_eq!(r[2], 0x01);
    assert!(s.combo);

    // Once select counts as held, the chord no longer fires: A keeps its
    // normal bit and the held-select bit appears.
    let mut s = ControllerState::default();
    s.button_select = true;
    s.button_select_hold = true;
    s.button_a = true;
    let r = sotp031201_p5b5::update_gadget(&mut s);
    assert_eq!(r[2], 0x04);
    assert_eq!(r[3], 0x02);
    assert!(!s.combo);
}

#[test]
fn combo_suppresses_normal_bits_zkns() {
    // Select+left: the L shoulder fires and the hat switch stays idle.
    let mut s = ControllerState::default();
    s.button_select = true;
    s.button_left = true;
    let r = zkns001::update_gadget(&mut s);
    assert_eq!(r[0], 0x10);
    assert_eq!(r[2], 0xF);
    assert!(s.combo);

    // Start+select: Home fires and start's normal bit stays clear.
    let mut s = ControllerState::default();
    s.button_select = true;
    s.button_start = true;
    let r = zkns001::update_gadget(&mut s);
    assert_eq!(r[1], 0x10);
    assert!(s.combo);
}

#[test]
fn zkns001_full_brake_presses_zl() {
    let mut s = state_with(0, 9);
    let r = zkns001::update_gadget(&mut s);
    assert_eq!(r[0], 0x40);
    assert_eq!(r[4], 0x00);
}

#[test]
fn dgoc44u_directions_press_select_combos() {
    let mut s = ControllerState::default();
    s.button_up = true;
    let r = dgoc44u::update_gadget(&mut s);
    assert_eq!(r[3], 0x18);
    let mut s = ControllerState::default();
    s.button_down = true;
    let r = dgoc44u::update_gadget(&mut s);
    assert_eq!(r[3], 0x11);
    let mut s = ControllerState::default();
    s.button_left = true;
    let r = dgoc44u::update_gadget(&mut s);
    assert_eq!(r[3], 0x12);
    let mut s = ControllerState::default();
    s.button_right = true;
    let r = dgoc44u::update_gadget(&mut s);
    assert_eq!(r[3], 0x14);
}

#[test]
fn set_state_dispatches_by_model() {
    let mut s = state_with(2, 0);
    let r = set_state(&mut s, &ControllerModel::TCPP20009);
    assert_eq!(r, vec![0x1, 0x79, 0x54, 0xFF, 0x8, 0x0]);
    let mut s = state_with(2, 0);
    let r = set_state(&mut s, &ControllerModel::ZKNS001);
    assert_eq!(r, vec![0x0, 0x0, 0xF, 0x80, 0xB7, 0x80, 0x80, 0x0]);
}

#[test]
fn tcpp20004_button_bits() {
    let mut s = ControllerState::default();
    s.button_a = true;
    s.button_c = true;
    s.button_select = true;
    s.button_start = true;
    let r = tcpp20004::update_gadget(&mut s);
    assert_eq!(r[2], 0x05);
    assert_eq!(r[3], 0x01 + 0x02 + 0x38 + 0x80);
    // The D button and the directions have no lane on this model.
    let mut s = ControllerState::default();
    s.button_d = true;
    s.button_up = true;
    let r = tcpp20004::update_gadget(&mut s);
    assert_eq!(r[2], 0x00);
}

#[test]
fn sotp031201_p5b7_button_bits() {
    let mut s = ControllerState::default();
    s.button_a = true;
    s.button_d = true;
    let r = sotp031201_p5b7::update_gadget(&mut s);
    assert_eq!(r[2], 0x04 + 0x02);
    let mut s = ControllerState::default();
    s.button_select = true;
    s.button_start = true;
    s.button_left = true;
    let r = sotp031201_p5b7::update_gadget(&mut s);
    // No chords in this mode: select keeps its plain bit even with a
    // direction pressed.
    assert_eq!(r[2], 0x00);
    assert_eq!(r[3], 0x01 + 0x02 + 0x10);
}

#[test]
fn vok00106_button_tokens() {
    let mut s = ControllerState::default();
    s.button_a = true;
    s.button_d = true;
    let r = vok00106::update_gadget(&mut s);
    assert_eq!(r, b"TSA50\rTSX99\rTSY00\rTSZ00\rTSK99\r".to_vec());
}

#[test]
fn generic_button_bits_and_pressures() {
    let mut s = ControllerState::default();
    s.button_a = true;
    s.button_select = true;
    s.button_start = true;
    s.button_left = true;
    let r = generic::update_gadget(&mut s);
    assert_eq!(r[2], 0x01 + 0x08 + 0x80);
    assert_eq!(r[3], 0x80);
    assert_eq!(r[17], 0xFF);
    assert_eq!(r[14], 0x00);
    assert_eq!(r[25], 0xFF);
}
