use aa_mirror::hid::{
    build_report_descriptor, build_report_descriptor_old, build_report_descriptor_v2,
    report_reference_descriptor, start_hid_peripheral, HidControlEvent, HidError, HidPeripheral,
    HidReport, HID_CONTROL_POINT_CHAR, HID_INFO_CHAR, PROTOCOL_MODE_CHAR, REPORT_CHAR,
    REPORT_MAP_CHAR,
};

#[test]
fn the_descriptor_names_the_largest_coordinates() {
    assert_eq!(
        build_report_descriptor(1280, 720),
        vec![
            0x05, 0x0D, 0x09, 0x04, 0xA1, 0x01, 0x85, 0x01, 0x09, 0x22, 0xA1, 0x00, 0x09, 0x42,
            0x09, 0x32, 0x15, 0x00, 0x25, 0x01, 0x75, 0x01, 0x95, 0x02, 0x81, 0x02, 0x75, 0x06,
            0x95, 0x01, 0x81, 0x03, 0x75, 0x08, 0x95, 0x01, 0x09, 0x51, 0x81, 0x02, 0x05, 0x01,
            0x09, 0x30, 0x75, 0x10, 0x95, 0x01, 0x15, 0x00, 0x26, 0xFF, 0x04, 0x81, 0x02, 0x09,
            0x31, 0x15, 0x00, 0x26, 0xCF, 0x02, 0x75, 0x10, 0x95, 0x01, 0x81, 0x02, 0xC0, 0x05,
            0x0D, 0x09, 0x54, 0x15, 0x00, 0x25, 0x01, 0x75, 0x08, 0x95, 0x01, 0x81, 0x02, 0xC0
        ]
    );
}

#[test]
fn an_empty_screen_has_the_coordinate_zero() {
    let d = build_report_descriptor(0, 1);
    assert_eq!(d[51..53], [0, 0]);
    assert_eq!(d[60..62], [0, 0]);
}

#[test]
fn the_descriptors_with_a_keyboard() {
    let keyboard = [
        0x05, 0x01, 0x09, 0x06, 0xA1, 0x01, 0x85, 0x02, 0x05, 0x07, 0x19, 0xE0, 0x29, 0xE7, 0x15,
        0x00, 0x25, 0x01, 0x75, 0x01, 0x95, 0x08, 0x81, 0x02, 0x95, 0x01, 0x75, 0x08, 0x81, 0x03,
        0x95, 0x06, 0x75, 0x08, 0x15, 0x00, 0x25, 0x65, 0x05, 0x07, 0x19, 0x00, 0x29, 0x65, 0x81,
        0x00, 0xC0,
    ];
    let v2 = build_report_descriptor_v2(1280, 720);
    assert_eq!(v2[v2.len() - keyboard.len()..], keyboard);
    assert_eq!(v2[69..71], [0xFF, 0x04]);
    assert_eq!(v2[82..84], [0xCF, 0x02]);
    let old = build_report_descriptor_old(1280, 720);
    assert_eq!(old[old.len() - keyboard.len()..], keyboard);
    assert_eq!(old[39..41], [0xFF, 0x04]);
    assert_eq!(old[52..54], [0xCF, 0x02]);
    assert_eq!(old[54..58], [0x81, 0x02, 0xC0, 0xC0]);
}

#[test]
fn touches_stay_on_the_screen() {
    let mut h = HidPeripheral::new(800, 480);
    assert_eq!((h.width(), h.height()), (800, 480));
    assert_eq!(h.send_touch(true, 1, 1), Err(HidError::NotConnected));
    assert!(h.on_control(HidReport::Touchpad, HidControlEvent::Notify));
    assert_eq!(h.send_touch(true, 0x0102, 3), Ok(vec![4, 1, 0, 3, 2, 1, 3, 0]));
    assert_eq!(h.send_touch(false, 5000, 480), Ok(vec![4, 0, 0, 0, 0x1F, 3, 0xDF, 1]));
    assert_eq!(h.send_key(0, [0; 6]), Err(HidError::NotConnected));
}

#[test]
fn keys_are_reported() {
    let mut h = HidPeripheral::new(800, 480);
    h.on_control(HidReport::Keyboard, HidControlEvent::Notify);
    assert_eq!(
        h.send_key(2, [4, 5, 6, 7, 8, 9]),
        Ok(vec![1, 2, 0, 4, 5, 6, 7, 8, 9])
    );
}

#[test]
fn a_lost_client_is_forgotten() {
    let mut h = HidPeripheral::new(800, 480);
    h.on_control(HidReport::Keyboard, HidControlEvent::Notify);
    h.on_control(HidReport::Touchpad, HidControlEvent::Notify);
    assert_eq!(h.report_written(HidReport::Keyboard, true), Ok(()));
    assert!(h.keyboard_writer);
    assert_eq!(
        h.report_written(HidReport::Keyboard, false),
        Err(HidError::NotificationFailed)
    );
    assert!(!h.keyboard_writer && h.touchpad_writer);
    assert!(h.on_control(HidReport::Touchpad, HidControlEvent::Write));
    assert!(h.touchpad_writer);
    assert!(!h.on_control(HidReport::Touchpad, HidControlEvent::Ended));
    assert!(!h.touchpad_writer);
}

#[test]
fn the_attributes_of_the_device() {
    let (h, list) = start_hid_peripheral(800, 480);
    assert_eq!(h, HidPeripheral::new(800, 480));
    let uuids: Vec<u128> = list.iter().map(|c| c.uuid).collect();
    assert_eq!(
        uuids,
        vec![
            HID_INFO_CHAR,
            REPORT_MAP_CHAR,
            REPORT_CHAR,
            REPORT_CHAR,
            REPORT_CHAR,
            HID_CONTROL_POINT_CHAR,
            PROTOCOL_MODE_CHAR
        ]
    );
    assert_eq!(list[0].read, Some(vec![0x11, 0x01, 0x00, 0x01]));
    assert_eq!(list[1].read, Some(build_report_descriptor(800, 480)));
    assert_eq!(list[2].report_reference, Some((1, 1)));
    assert!(list[2].notify);
    assert_eq!(list[3].report_reference, Some((1, 2)));
    assert!(list[3].write && list[3].write_without_response && !list[3].notify);
    assert_eq!(list[4].report_reference, Some((4, 1)));
    assert!(list[5].write_without_response && !list[5].write);
    assert_eq!(list[6].read, Some(vec![1]));
    assert_eq!(report_reference_descriptor(4, 1), vec![4, 1]);
}
