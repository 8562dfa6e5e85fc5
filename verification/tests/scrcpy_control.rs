use aa_mirror::channel_manager::Packet;
use aa_mirror::messages::{compose, compose_command};
use aa_mirror::protos;
use aa_mirror::scrcpy::{
    AndroidKeyEvent, AndroidTouchEvent, ControlServer, ControlStep, InputReport, KeyReport,
    Pointer, PointerAction, RelativeReport, ScrcpyControlMessageType, ScrcpyKeyEvent,
    ScrcpyPoint, ScrcpyPosition, ScrcpyScrollEvent, ScrcpySize, ScrcpyTouchEvent, TouchReport,
};

const SIZE: ScrcpySize = ScrcpySize { width: 800, height: 480 };

fn empty() -> InputReport {
    InputReport {
        touch_event: None,
        touchpad_event: None,
        key_event: None,
        absolute_event: false,
        relative_event: None,
    }
}

fn touch(action: PointerAction, points: &[(u32, u32, u32)]) -> TouchReport {
    TouchReport {
        action,
        pointer_data: points
            .iter()
            .map(|p| Pointer { x: p.0, y: p.1, pointer_id: p.2 })
            .collect(),
    }
}

fn report_packet() -> Packet {
    compose(8, 11, protos::INPUT_MESSAGE_INPUT_REPORT, &[])
}

#[test]
fn codes_of_events() {
    assert_eq!(AndroidTouchEvent::Down.code(), 0);
    assert_eq!(AndroidTouchEvent::Up.code(), 1);
    assert_eq!(AndroidTouchEvent::Move.code(), 2);
    assert_eq!(AndroidKeyEvent::Down.code(), 0);
    assert_eq!(AndroidKeyEvent::Up.code(), 1);
    assert_eq!(ScrcpyControlMessageType::InjectKeycode.code(), 0);
    assert_eq!(ScrcpyControlMessageType::InjectTouchEvent.code(), 2);
    assert_eq!(ScrcpyControlMessageType::InjectScrollEvent.code(), 3);
    assert_eq!(ScrcpyControlMessageType::BackOrScreenOn.code(), 4);
    assert_eq!(ScrcpyControlMessageType::SetDisplayPower.code(), 10);
    assert_eq!(ScrcpyControlMessageType::RotateDevice.code(), 11);
}

#[test]
fn bytes_of_a_touch_event() {
    let e = ScrcpyTouchEvent {
        action: 1,
        pointer_id: 0x0102030405060708,
        position: ScrcpyPosition { point: ScrcpyPoint { x: -1, y: 0x11223344 }, screen_size: SIZE },
        pressure: 0xABCD,
        action_button: 1,
        buttons: 2,
    };
    let b = e.to_be_bytes();
    assert_eq!(
        b,
        vec![
            1, 1, 2, 3, 4, 5, 6, 7, 8, 0xFF, 0xFF, 0xFF, 0xFF, 0x11, 0x22, 0x33, 0x44, 0x03,
            0x20, 0x01, 0xE0, 0xAB, 0xCD, 0, 0, 0, 1, 0, 0, 0, 2
        ]
    );
    assert_eq!(b.len(), 31);
    assert_eq!(i32::from_be_bytes([b[9], b[10], b[11], b[12]]), e.position.point.x);
    assert_eq!(u16::from_be_bytes([b[17], b[18]]), SIZE.width);
}

#[test]
fn bytes_of_a_key_event() {
    let e = ScrcpyKeyEvent { action: 1, key_code: 84, repeat: -1, metastate: 3 };
    assert_eq!(
        e.to_be_bytes(),
        vec![1, 0, 0, 0, 84, 0xFF, 0xFF, 0xFF, 0xFF, 0, 0, 0, 3]
    );
}

#[test]
fn bytes_of_a_scroll_event() {
    let e = ScrcpyScrollEvent {
        position: ScrcpyPoint { x: 1, y: 2 },
        screen_size: SIZE,
        hscroll: 0,
        vscroll: -2,
        buttons: 1,
    };
    assert_eq!(
        e.to_be_bytes(),
        vec![0, 0, 0, 1, 0, 0, 0, 2, 3, 0x20, 1, 0xE0, 0, 0, 0xFF, 0xFE, 0, 0, 0, 1]
    );
    assert_eq!(ScrcpyPoint { x: 1, y: -1 }.to_be_bytes(), vec![0, 0, 0, 1, 255, 255, 255, 255]);
    assert_eq!(SIZE.to_be_bytes(), vec![3, 0x20, 1, 0xE0]);
    let p = ScrcpyPosition { point: ScrcpyPoint { x: 0, y: 5 }, screen_size: SIZE };
    assert_eq!(p.to_be_bytes(), vec![0, 0, 0, 0, 0, 0, 0, 5, 3, 0x20, 1, 0xE0]);
}

#[test]
fn the_display_is_switched_off_where_configured() {
    assert_eq!(ControlServer::new(8, SIZE, true).start(), Some(vec![10, 0]));
    assert_eq!(ControlServer::new(8, SIZE, false).start(), None);
}

#[test]
fn each_finger_is_injected() {
    let mut s = ControlServer::new(8, SIZE, false);
    let report = InputReport {
        touch_event: Some(touch(PointerAction::Down, &[(10, 20, 0), (30, 40, 1)])),
        ..empty()
    };
    let messages = s.inject(&report);
    assert_eq!(messages.len(), 2);
    assert_eq!(messages[0][..2], [2, 0]);
    assert_eq!(messages[1][2..10], [0, 0, 0, 0, 0, 0, 0, 1]);
    assert_eq!(messages[1][10..18], [0, 0, 0, 30, 0, 0, 0, 40]);
    assert_eq!(messages[1][22..], [0xFF, 0xFF, 0, 0, 0, 1, 0, 0, 0, 1]);
    assert_eq!(s.last_touched_point, ScrcpyPoint { x: 0, y: 0 });
}

#[test]
fn scrolling_happens_where_the_last_finger_left() {
    let mut s = ControlServer::new(8, SIZE, false);
    let up = InputReport {
        touchpad_event: Some(touch(PointerAction::Up, &[(10, 20, 0), (30, 40, 1)])),
        ..empty()
    };
    assert_eq!(s.inject(&up).len(), 2);
    assert_eq!(s.last_touched_point, ScrcpyPoint { x: 30, y: 40 });
    let turn = InputReport {
        relative_event: Some(vec![
            RelativeReport { keycode: 65536, delta: -3 },
            RelativeReport { keycode: 65537, delta: 9 },
            RelativeReport { keycode: 65536, delta: 65537 },
        ]),
        ..empty()
    };
    let messages = s.inject(&turn);
    assert_eq!(messages.len(), 2);
    assert_eq!(
        messages[0],
        vec![
            3, 0, 0, 0, 30, 0, 0, 0, 40, 3, 0x20, 1, 0xE0, 0, 0, 0xFF, 0xFD, 0, 0, 0, 1
        ]
    );
    assert_eq!(messages[1][15..17], [0, 1]);
}

#[test]
fn other_actions_are_not_passed_on() {
    let mut s = ControlServer::new(8, SIZE, false);
    let other = InputReport {
        touch_event: Some(touch(PointerAction::Other, &[(1, 1, 1)])),
        ..empty()
    };
    assert!(s.inject(&other).is_empty());
    let absolute = InputReport {
        absolute_event: true,
        relative_event: Some(vec![RelativeReport { keycode: 65536, delta: 1 }]),
        ..empty()
    };
    assert!(s.inject(&absolute).is_empty());
    assert!(s.inject(&empty()).is_empty());
}

#[test]
fn keys_are_injected() {
    let mut s = ControlServer::new(8, SIZE, false);
    let report = InputReport {
        key_event: Some(vec![
            KeyReport { keycode: 84, down: true },
            KeyReport { keycode: 84, down: false },
        ]),
        ..empty()
    };
    let messages = s.inject(&report);
    assert_eq!(messages[0], vec![0, 0, 0, 0, 0, 84, 0, 0, 0, 0, 0, 0, 0, 0]);
    assert_eq!(messages[1][1], 1);
}

#[test]
fn packets_for_the_control_server() {
    let mut s = ControlServer::new(8, SIZE, false);
    let report = InputReport {
        key_event: Some(vec![KeyReport { keycode: 3, down: true }]),
        ..empty()
    };
    match s.handle_packet(&report_packet(), Some(&report)) {
        ControlStep::Write { messages } => assert_eq!(messages.len(), 1),
        ControlStep::Stop => unreachable!(),
    }
    match s.handle_packet(&report_packet(), None) {
        ControlStep::Write { messages } => assert!(messages.is_empty()),
        ControlStep::Stop => unreachable!(),
    }
    let cancel = compose_command(0, protos::CANCEL, &[]);
    assert!(matches!(s.handle_packet(&cancel, None), ControlStep::Stop));
    let open = compose_command(0, protos::CMD_OPEN_CH, &[]);
    assert!(matches!(s.handle_packet(&open, None), ControlStep::Write { .. }));
}
