use ddgo_pnp_controller::emulated::set_model;
use ddgo_pnp_controller::emulated::ControllerModel;
use ddgo_pnp_controller::physical::ControllerState;

#[test]
fn each_trigger_selects_its_model() {
    let mut s = ControllerState::default();
    s.button_right = true;
    assert_eq!(set_model(&s), Some(ControllerModel::DGOC44U));

    let mut s = ControllerState::default();
    s.button_up = true;
    assert_eq!(set_model(&s), Some(ControllerModel::ZKNS001));

    let mut s = ControllerState::default();
    s.button_down = true;
    assert_eq!(set_model(&s), Some(ControllerModel::SLPH00051));

    let mut s = ControllerState::default();
    s.button_d = true;
    assert_eq!(set_model(&s), Some(ControllerModel::TCPP20009));

    let mut s = ControllerState::default();
    s.button_b = true;
    assert_eq!(set_model(&s), Some(ControllerModel::TCPP20011));

    let mut s = ControllerState::default();
    s.button_c = true;
    assert_eq!(set_model(&s), Some(ControllerModel::SOTP031201P4B7));
    s.power = 1;
    assert_eq!(set_model(&s), Some(ControllerModel::SOTP031201P4B2B7));
    s.power = 2;
    assert_eq!(set_model(&s), Some(ControllerModel::SOTP031201P5B5));
    s.power = 3;
    assert_eq!(set_model(&s), Some(ControllerModel::SOTP031201P5B7));
}

#[test]
fn colliding_triggers_resolve_in_priority_order() {
    // Right beats up.
    let mut s = ControllerState::default();
    s.button_right = true;
    s.button_up = true;
    assert_eq!(set_model(&s), Some(ControllerModel::DGOC44U));

    // Up beats down.
    let mut s = ControllerState::default();
    s.button_up = true;
    s.button_down = true;
    assert_eq!(set_model(&s), Some(ControllerModel::ZKNS001));

    // Down at power 0 beats D.
    let mut s = ControllerState::default();
    s.button_down = true;
    s.button_d = true;
    assert_eq!(set_model(&s), Some(ControllerModel::SLPH00051));

    // D beats B.
    let mut s = ControllerState::default();
    s.button_d = true;
    s.button_b = true;
    assert_eq!(set_model(&s), Some(ControllerModel::TCPP20009));

    // B beats C.
    let mut s = ControllerState::default();
    s.button_b = true;
    s.button_c = true;
    s.power = 2;
    assert_eq!(set_model(&s), Some(ControllerModel::TCPP20011));
}

#[test]
fn down_needs_power_zero() {
    // Down with a nonzero power falls through the whole chain.
    let mut s = ControllerState::default();
    s.button_down = true;
    s.power = 1;
    assert_eq!(set_model(&s), None);
}

#[test]
fn no_trigger_selects_nothing() {
    let s = ControllerState::default();
    assert_eq!(set_model(&s), None);

    // C with a power notch past the four multi-train modes selects
    // nothing either.
    let mut s = ControllerState::default();
    s.button_c = true;
    s.power = 4;
    assert_eq!(set_model(&s), None);

    // The action buttons alone select nothing.
    let mut s = ControllerState::default();
    s.button_a = true;
    s.button_start = true;
    s.button_select = true;
    assert_eq!(set_model(&s), None);
}
