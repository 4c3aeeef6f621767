use ddgo_pnp_controller::emulated::handle_ctrl_transfer;
use ddgo_pnp_controller::emulated::model_descriptors;
use ddgo_pnp_controller::emulated::string_descriptors;
use ddgo_pnp_controller::emulated::ControllerModel;
use ddgo_pnp_controller::emulated::generic;
use ddgo_pnp_controller::emulated::sotp031201_p5b5;
use ddgo_pnp_controller::emulated::sotp031201_p5b7;
use ddgo_pnp_controller::emulated::tcpp20004;
use ddgo_pnp_controller::emulated::tcpp20009;
use ddgo_pnp_controller::emulated::tcpp20011;
use ddgo_pnp_controller::emulated::vok00106;
use ddgo_pnp_controller::emulated::zkns001;

const GET_HID_REPORT: [u8; 8] = [0x80, 6, 0, 34, 0, 0, 0, 0];

#[test]
fn hid_report_request_answered_for_zkns001() {
    let r = handle_ctrl_transfer(ControllerModel::ZKNS001, &GET_HID_REPORT);
    assert_eq!(r, Some(zkns001::hid_report_descriptor()));
    assert_eq!(r.unwrap().len(), 94);
}

#[test]
fn hid_report_request_answered_for_slph00051() {
    let r = handle_ctrl_transfer(ControllerModel::SLPH00051, &GET_HID_REPORT);
    assert_eq!(r, Some(generic::hid_report_descriptor()));
    assert_eq!(r.unwrap().len(), 148);
}

#[test]
fn hid_report_request_ignored_for_models_without_one() {
    assert_eq!(handle_ctrl_transfer(ControllerModel::TCPP20009, &GET_HID_REPORT), None);
    assert_eq!(handle_ctrl_transfer(ControllerModel::TCPP20011, &GET_HID_REPORT), None);
    assert_eq!(handle_ctrl_transfer(ControllerModel::SOTP031201P5B5, &GET_HID_REPORT), None);
}

#[test]
fn vendor_init_requests_answered_for_slph00051() {
    let f2_request: [u8; 8] = [0x40, 1, 0xF2, 0, 0, 0, 0, 0];
    let r = handle_ctrl_transfer(ControllerModel::SLPH00051, &f2_request).unwrap();
    assert_eq!(r.len(), 64);
    assert_eq!(r[0], 0xF2);
    assert_eq!(&r[5..10], &[0x6, 0xF5, 0x48, 0xE2, 0x49]);

    let f5_request: [u8; 8] = [0x40, 1, 0xF5, 0, 0, 0, 0, 0];
    let r = handle_ctrl_transfer(ControllerModel::SLPH00051, &f5_request).unwrap();
    assert_eq!(r.len(), 64);
    assert_eq!(&r[0..6], &[0x1, 0x0, 0x0, 0x23, 0x6, 0x7C]);

    // The same requests on any other model are ignored.
    assert_eq!(handle_ctrl_transfer(ControllerModel::ZKNS001, &f2_request), None);
}

#[test]
fn unknown_requests_ignored() {
    let other: [u8; 8] = [0x80, 6, 0, 1, 0, 0, 0, 0];
    assert_eq!(handle_ctrl_transfer(ControllerModel::ZKNS001, &other), None);
    assert_eq!(handle_ctrl_transfer(ControllerModel::SLPH00051, &other), None);
    let junk: [u8; 8] = [0, 0, 0, 0, 0, 0, 0, 0];
    assert_eq!(handle_ctrl_transfer(ControllerModel::SLPH00051, &junk), None);
}

#[test]
fn string_descriptor_block() {
    let s = string_descriptors();
    assert_eq!(
        s,
        vec![0x02, 0x00, 0x00, 0x00, 0x10, 0x00, 0x00, 0x00, 0x00, 0x00, 0x00, 0x00, 0x00, 0x00,
            0x00, 0x00]
    );
}

#[test]
fn descriptor_blocks_match_their_headers() {
    // The second header word is the block's own total length.
    for block in [
        tcpp20009::descriptors(),
        tcpp20011::descriptors(),
        sotp031201_p5b5::descriptors(),
        sotp031201_p5b7::descriptors(),
        tcpp20004::descriptors(),
        vok00106::descriptors(),
        zkns001::descriptors(),
        generic::descriptors(),
    ] {
        let total = u32::from_le_bytes([block[4], block[5], block[6], block[7]]);
        assert_eq!(total as usize, block.len());
    }
    assert_eq!(tcpp20009::descriptors().len(), 32);
    assert_eq!(zkns001::descriptors().len(), 80);
    assert_eq!(generic::descriptors().len(), 80);
}

#[test]
fn model_descriptor_bundles() {
    let (d, block, strings) = model_descriptors(&ControllerModel::ZKNS001).unwrap();
    assert_eq!(d.id_vendor, 0x33DD);
    assert_eq!(d.id_product, 0x0001);
    assert_eq!(d.i_manufacturer, "TAITO");
    assert_eq!(block, zkns001::descriptors());
    assert_eq!(strings, string_descriptors());

    let (d, _, _) = model_descriptors(&ControllerModel::SLPH00051).unwrap();
    assert_eq!(d.id_vendor, 0x054C);
    assert_eq!(d.id_product, 0x0268);

    let (d, _, _) = model_descriptors(&ControllerModel::SOTP031201P5B5).unwrap();
    assert_eq!(d.id_vendor, 0x1C06);
    assert_eq!(d.i_serial_number, "SOTP-031201");

    assert!(model_descriptors(&ControllerModel::DGOC44U).is_none());
    assert!(model_descriptors(&ControllerModel::SOTP031201P4B7).is_none());
    assert!(model_descriptors(&ControllerModel::SOTP031201P4B2B7).is_none());
}

#[test]
fn hid_report_descriptors_exposed_per_model() {
    assert_eq!(tcpp20004::hid_report_descriptor().len(), 51);
    assert_eq!(zkns001::hid_report_descriptor()[0..4], [0x05, 0x01, 0x09, 0x05]);
    assert_eq!(generic::hid_report_descriptor()[0..4], [0x05, 0x01, 0x09, 0x04]);
}
