use aa_mirror::config::Action;
use aa_mirror::io_uring::{
    cancel_packet, find_arp_column, flatten, init_wifi_config, io_loop, mac_from_ipv4,
    stats_interval, usb_wait_for_hu_connection, Interface, MirrorAction, MirrorEvent,
    MirrorPhase, MonitorInput, MonitorOutcome, PassAction, PassEvent, PassLoop, PassPhase,
    TransferMonitor,
};

const ARP: &str = "IP address       HW type     Flags       HW address            Mask     Device\n\
    10.0.0.2         0x1         0x2         junk                  *        wlan0\n\
    10.0.0.20        0x1         0x2         00:00:00:00:00:01     *        wlan0\n\
    10.0.0.2         0x1         0x2         0a:1B:2c:3D:4e:5F     *        wlan0\n\
    10.0.0.3         0x1\n";

fn look(usb: usize, tcp: usize, report: u128, stall: u128) -> MonitorInput {
    MonitorInput {
        usb_bytes_out: usb,
        tcp_bytes_out: tcp,
        since_report: report,
        since_stall_check: stall,
        action: None,
    }
}

#[test]
fn reports_add_up() {
    let mut m = TransferMonitor::new();
    assert!(m.transfer_monitor(Some(10), 100, &look(5, 6, 10, 0)).report.is_none());
    let first = m.transfer_monitor(Some(10), 100, &look(50, 60, 11, 0)).report.unwrap();
    assert_eq!((first.usb_transferred_last, first.tcp_transferred_last), (50, 60));
    let second = m.transfer_monitor(Some(10), 100, &look(80, 65, 11, 0)).report.unwrap();
    assert_eq!((second.usb_transferred_last, second.tcp_transferred_last), (30, 5));
    assert_eq!((second.usb_transferred_total, second.tcp_transferred_total), (80, 65));
    assert!(m.transfer_monitor(None, 100, &look(90, 65, 999, 0)).report.is_none());
}

#[test]
fn a_stall_ends_the_session() {
    let mut m = TransferMonitor::new();
    let ok = m.transfer_monitor(None, 100, &look(5, 6, 0, 101));
    assert!(ok.stall_checked);
    assert_eq!(ok.outcome, MonitorOutcome::Continue);
    let early = m.transfer_monitor(None, 100, &look(5, 6, 0, 100));
    assert!(!early.stall_checked);
    assert_eq!(early.outcome, MonitorOutcome::Continue);
    let stalled = m.transfer_monitor(None, 100, &look(9, 6, 0, 101));
    assert!(!stalled.stall_checked);
    assert_eq!(stalled.outcome, MonitorOutcome::Stalled);
}

#[test]
fn a_request_ends_the_session() {
    let mut m = TransferMonitor::new();
    let input = |action| MonitorInput { action: Some(action), ..look(1, 1, 0, 0) };
    assert_eq!(
        m.transfer_monitor(None, 100, &input(Action::Reconnect)).outcome,
        MonitorOutcome::ActionRequested { action: Action::Reconnect, clear: true }
    );
    assert_eq!(
        m.transfer_monitor(None, 100, &input(Action::Reboot)).outcome,
        MonitorOutcome::ActionRequested { action: Action::Reboot, clear: false }
    );
}

#[test]
fn intervals_and_outcomes() {
    assert_eq!(stats_interval(0), None);
    assert_eq!(stats_interval(7), Some(7));
    let ok: Result<Result<u8, u8>, u8> = Ok(Ok(1));
    assert_eq!(flatten(ok), Ok(1));
    let inner: Result<Result<u8, u8>, u8> = Ok(Err(2));
    assert_eq!(flatten(inner), Err(2));
    let outer: Result<Result<u8, u8>, u8> = Err(3);
    assert_eq!(flatten(outer), Err(3));
}

#[test]
fn the_address_of_the_access_point() {
    let iface = |name: &str, scoped: bool, address: &str| Interface {
        name: name.to_string(),
        scoped,
        address: address.to_string(),
    };
    let list = vec![
        iface("lo", false, "127.0.0.1"),
        iface("wlan0", true, "fe80::1"),
        iface("wlan0", false, "10.0.0.1"),
        iface("wlan0", false, "10.0.0.9"),
    ];
    let (ssid, key) = ("net".to_string(), "key".to_string());
    let w = init_wifi_config(&list, "wlan0", "192.168.0.1", 5288, &ssid, "mac".to_string(), &key);
    assert_eq!(w.ip_addr, "10.0.0.1");
    assert_eq!((w.port, w.ssid.as_str(), w.wpa_key.as_str()), (5288, "net", "key"));
    assert_eq!(w.bssid, "mac");
    let d = init_wifi_config(&list, "wlan1", "192.168.0.1", 1, &ssid, "m".to_string(), &key);
    assert_eq!(d.ip_addr, "192.168.0.1");
}

#[test]
fn hardware_addresses_come_from_the_table() {
    assert_eq!(
        mac_from_ipv4(ARP, Some((10, 0, 0, 2))),
        Some(vec![0x0A, 0x1B, 0x2C, 0x3D, 0x4E, 0x5F])
    );
    assert_eq!(mac_from_ipv4(ARP, Some((10, 0, 0, 20))), Some(vec![0, 0, 0, 0, 0, 1]));
    assert_eq!(mac_from_ipv4(ARP, Some((10, 0, 0, 3))), None);
    assert_eq!(mac_from_ipv4(ARP, None), None);
    // The first line is the heading.
    assert_eq!(mac_from_ipv4("10.0.0.2 a b 0a:1B:2c:3D:4e:5F", Some((10, 0, 0, 2))), None);
    let row: Vec<char> = "10.0.0.2 a b mac".chars().collect();
    assert_eq!(find_arp_column(&row, (10, 0, 0, 2)), Some("mac".to_string()));
    assert_eq!(find_arp_column(&row, (10, 0, 0, 1)), None);
}

#[test]
fn the_usb_state() {
    assert!(usb_wait_for_hu_connection("CONFIGURED\n"));
    assert!(usb_wait_for_hu_connection("  CONFIGURED"));
    assert!(!usb_wait_for_hu_connection("CONNECTED\n"));
    assert!(!usb_wait_for_hu_connection(""));
}

#[test]
fn the_recorder_is_cancelled() {
    let p = cancel_packet();
    assert_eq!((p.channel, p.flags), (0, 3));
    assert_eq!(p.payload, vec![0xF0, 0x00, 0, 0]);
}

#[test]
fn mirroring_over_usb() {
    let mut phase = MirrorPhase::Keys;
    assert_eq!(
        io_loop(&mut phase, &MirrorEvent::Keys { present: false }),
        vec![MirrorAction::Delay { millis: 10000 }, MirrorAction::CheckKeys]
    );
    assert_eq!(
        io_loop(&mut phase, &MirrorEvent::Keys { present: true }),
        vec![MirrorAction::StartTasks, MirrorAction::AwaitDevice]
    );
    assert_eq!(
        io_loop(&mut phase, &MirrorEvent::DeviceConnected { dhu: false }),
        vec![MirrorAction::PrepareUsb]
    );
    assert_eq!(
        io_loop(&mut phase, &MirrorEvent::UsbConfigured { ok: true }),
        vec![MirrorAction::OpenAccessory]
    );
    assert_eq!(
        io_loop(&mut phase, &MirrorEvent::AccessoryOpened { ok: true }),
        vec![MirrorAction::StartSession]
    );
    let action = Some(Action::Reboot);
    assert_eq!(
        io_loop(&mut phase, &MirrorEvent::SessionEnded { action }),
        vec![
            MirrorAction::CancelRecorder,
            MirrorAction::AbortTasks,
            MirrorAction::NotifyRestart { action },
            MirrorAction::AwaitDevice
        ]
    );
    assert_eq!(phase, MirrorPhase::Device);
}

#[test]
fn mirroring_goes_on_after_a_failure() {
    let mut phase = MirrorPhase::HuTcp;
    assert_eq!(
        io_loop(&mut phase, &MirrorEvent::HuAccepted { ok: false }),
        vec![MirrorAction::Delay { millis: 1000 }, MirrorAction::AwaitDevice]
    );
    assert_eq!(
        io_loop(&mut phase, &MirrorEvent::DeviceConnected { dhu: true }),
        vec![MirrorAction::AcceptHu]
    );
    assert_eq!(
        io_loop(&mut phase, &MirrorEvent::HuAccepted { ok: true }),
        vec![MirrorAction::StartSession]
    );
    phase = MirrorPhase::HuUsb;
    assert_eq!(
        io_loop(&mut phase, &MirrorEvent::UsbConfigured { ok: false }),
        vec![MirrorAction::NotifyRestart { action: None }, MirrorAction::AwaitDevice]
    );
    phase = MirrorPhase::Accessory;
    assert_eq!(
        io_loop(&mut phase, &MirrorEvent::AccessoryOpened { ok: false }).len(),
        3
    );
    assert!(io_loop(&mut phase, &MirrorEvent::Keys { present: true }).is_empty());
}

#[test]
fn passing_through_over_tcp() {
    let mut l = PassLoop::new(true);
    let retry = vec![PassAction::Delay { millis: 1000 }, PassAction::InitBluetooth];
    assert_eq!(l.io_loop_pt(&PassEvent::BluetoothReady { ok: false }), retry);
    assert_eq!(
        l.io_loop_pt(&PassEvent::BluetoothReady { ok: true }),
        vec![PassAction::Handshake { stopped: false }]
    );
    assert_eq!(l.io_loop_pt(&PassEvent::HandshakeDone { ok: false }), retry);
    assert!(!l.bt_stopped);
    l.io_loop_pt(&PassEvent::BluetoothReady { ok: true });
    assert_eq!(
        l.io_loop_pt(&PassEvent::HandshakeDone { ok: true }),
        vec![PassAction::AcceptDevice]
    );
    assert!(l.bt_stopped);
    assert_eq!(
        l.io_loop_pt(&PassEvent::DeviceAccepted { ok: true, has_mac: true }),
        vec![PassAction::AcceptHu]
    );
    assert_eq!(
        l.io_loop_pt(&PassEvent::HuAccepted { ok: true }),
        vec![PassAction::StartSession]
    );
    assert_eq!(
        l.io_loop_pt(&PassEvent::SessionEnded { action: None }),
        vec![
            PassAction::ShutDownDevice,
            PassAction::ShutDownHu,
            PassAction::Disassociate,
            PassAction::AbortTasks,
            PassAction::NotifyRestart { action: None },
            PassAction::InitBluetooth
        ]
    );
    assert_eq!(
        l.io_loop_pt(&PassEvent::BluetoothReady { ok: true }),
        vec![PassAction::Handshake { stopped: true }]
    );
}

#[test]
fn passing_through_over_usb() {
    let mut l = PassLoop { phase: PassPhase::Device, ..PassLoop::new(false) };
    assert_eq!(
        l.io_loop_pt(&PassEvent::DeviceAccepted { ok: true, has_mac: false }),
        vec![PassAction::PrepareUsb]
    );
    assert_eq!(
        l.io_loop_pt(&PassEvent::UsbConfigured { ok: true }),
        vec![PassAction::OpenAccessory]
    );
    assert_eq!(
        l.io_loop_pt(&PassEvent::AccessoryOpened { ok: true }),
        vec![PassAction::StartSession]
    );
    assert_eq!(
        l.io_loop_pt(&PassEvent::SessionEnded { action: Some(Action::Reconnect) }),
        vec![
            PassAction::UsbToDefault,
            PassAction::ShutDownDevice,
            PassAction::AbortTasks,
            PassAction::NotifyRestart { action: Some(Action::Reconnect) },
            PassAction::InitBluetooth
        ]
    );
    l.phase = PassPhase::HuUsb;
    assert_eq!(
        l.io_loop_pt(&PassEvent::UsbConfigured { ok: false }),
        vec![PassAction::NotifyRestart { action: None }, PassAction::InitBluetooth]
    );
    l.phase = PassPhase::Accessory;
    assert_eq!(l.io_loop_pt(&PassEvent::AccessoryOpened { ok: false }).len(), 3);
    assert!(l.io_loop_pt(&PassEvent::HuAccepted { ok: true }).is_empty());
}
