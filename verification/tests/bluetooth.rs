use aa_mirror::bluetooth::{
    aa_handshake, get_aa_profile_connection, get_cpu_serial_number_suffix, init, read_message,
    read_message_header, send_message, send_params, AdvertisementContent, Advertising,
    AdvertisingStep, BtProfile, ClosingAction, ConnectAttempts, ConnectPlan, ConnectStep,
    HandshakeError, HandshakeMessage, HandshakeStage, MessageId, AAWG_PROFILE_UUID, ANY_ADDRESS,
    HSP_HS_UUID, STAGES,
};
use aa_mirror::config::WifiConfig;

#[test]
fn the_end_of_the_serial_number() {
    assert_eq!(get_cpu_serial_number_suffix("10000000a1b2c3d4\0"), "b2c3d4");
    assert_eq!(get_cpu_serial_number_suffix(" 123456\n\0\0"), "123456");
    assert_eq!(get_cpu_serial_number_suffix("12345\0"), "");
    assert_eq!(get_cpu_serial_number_suffix(""), "");
    assert_eq!(get_cpu_serial_number_suffix("1äöü"), "äöü");
}

#[test]
fn the_name_of_the_adapter() {
    let set = init(Some("car".to_string()), Some("x".to_string()), "aa", true, false);
    assert_eq!(set.alias, "car");
    assert!(set.discoverable);
    assert_eq!(
        set.profiles,
        vec![
            BtProfile::AaWireless { uuid: AAWG_PROFILE_UUID, channel: 8 },
            BtProfile::Headset { uuid: HSP_HS_UUID }
        ]
    );
    assert_eq!(init(None, Some("c3d4".to_string()), "aa", false, true).alias, "aa-c3d4");
    let plain = init(None, None, "aa", false, true);
    assert_eq!(plain.alias, "aa");
    assert!(!plain.discoverable);
    assert_eq!(plain.profiles.len(), 1);
}

#[test]
fn three_attempts_to_advertise_each() {
    let mut a = Advertising::new(true);
    let with = AdvertisingStep::Retry { content: AdvertisementContent::WithServices };
    let name = AdvertisingStep::Retry { content: AdvertisementContent::NameOnly };
    assert_eq!(a.attempted(false), with);
    assert_eq!(a.attempted(false), with);
    assert_eq!(a.attempted(false), name);
    assert_eq!(a.attempted(false), name);
    assert_eq!(a.attempted(false), name);
    assert_eq!(a.attempted(false), AdvertisingStep::Failed);
    let mut b = Advertising::new(false);
    b.attempted(false);
    assert_eq!(b.attempted(true), AdvertisingStep::Started);
    b.attempted(false);
    assert_eq!(b.attempted(false), AdvertisingStep::Failed);
}

#[test]
fn whom_to_connect_to() {
    assert_eq!(get_aa_profile_connection(None, false), ConnectPlan::Wait);
    let all = vec![5, ANY_ADDRESS];
    assert_eq!(get_aa_profile_connection(Some(&all), false), ConnectPlan::KnownDevices);
    assert_eq!(get_aa_profile_connection(Some(&all), true), ConnectPlan::Wait);
    assert_eq!(get_aa_profile_connection(Some(&vec![5]), false), ConnectPlan::Configured);
    assert_eq!(get_aa_profile_connection(Some(&vec![]), false), ConnectPlan::Wait);
}

#[test]
fn every_device_gets_its_attempts() {
    let mut c = ConnectAttempts::new(2, 3);
    let mut tried = vec![];
    let mut step = c.next();
    while let ConnectStep::Try { index } = step {
        tried.push(index);
        step = c.try_connect_bluetooth_addresses(false);
    }
    assert_eq!(tried, vec![1, 1, 1, 0, 0, 0]);
    assert_eq!(step, ConnectStep::GiveUp);
    assert_eq!(ConnectAttempts::new(0, 0).next(), ConnectStep::GiveUp);
}

#[test]
fn the_next_session_begins_with_the_next_device() {
    let mut c = ConnectAttempts::new(3, 2);
    assert_eq!(
        c.try_connect_bluetooth_addresses(true),
        ConnectStep::Connected { next_index: 0 }
    );
    for _ in 0..3 {
        c.try_connect_bluetooth_addresses(false);
    }
    assert_eq!(
        c.try_connect_bluetooth_addresses(true),
        ConnectStep::Connected { next_index: 1 }
    );
}

#[test]
fn handshake_messages_are_read_back() {
    let ids = vec![
        MessageId::WifiStartRequest,
        MessageId::WifiInfoRequest,
        MessageId::WifiInfoResponse,
        MessageId::WifiVersionRequest,
        MessageId::WifiVersionResponse,
        MessageId::WifiConnectStatus,
        MessageId::WifiStartResponse,
    ];
    for (i, id) in ids.iter().enumerate() {
        assert_eq!(id.number(), i as u16 + 1);
    }
    let m = send_message(MessageId::WifiInfoResponse, &[9; 258]);
    assert_eq!(m[..5], [1, 2, 0, 3, 9]);
    let h = read_message_header(&m, MessageId::WifiInfoResponse);
    assert_eq!((h.len, h.expected), (258, true));
    assert!(!read_message_header(&m, MessageId::WifiStartResponse).expected);
}

#[test]
fn the_status_of_the_connection() {
    let unreachable = [0x08, 0xFD, 0xFF, 0xFF];
    assert_eq!(
        read_message(MessageId::WifiConnectStatus, &unreachable),
        Err(HandshakeError::WifiUnreachable)
    );
    assert_eq!(read_message(MessageId::WifiConnectStatus, &[0x08, 0]), Ok(6));
    assert_eq!(read_message(MessageId::WifiConnectStatus, &[0x08]), Ok(5));
    assert_eq!(read_message(MessageId::WifiInfoRequest, &unreachable), Ok(8));
    assert_eq!(read_message(MessageId::WifiInfoRequest, &[]), Ok(4));
}

#[test]
fn the_stages_of_the_handshake() {
    let wifi = WifiConfig {
        ip_addr: "10.0.0.1".to_string(),
        port: 5288,
        ssid: "net".to_string(),
        bssid: "00:11:22:33:44:55".to_string(),
        wpa_key: "key".to_string(),
    };
    match send_params(1, &wifi) {
        HandshakeStage::Send {
            id,
            message: HandshakeMessage::StartRequest { ip_address, port },
        } => {
            assert_eq!(id, MessageId::WifiStartRequest);
            assert_eq!((ip_address.as_str(), port), ("10.0.0.1", 5288));
        }
        _ => unreachable!(),
    }
    assert!(matches!(
        send_params(2, &wifi),
        HandshakeStage::Read { id: MessageId::WifiInfoRequest }
    ));
    match send_params(3, &wifi) {
        HandshakeStage::Send {
            message: HandshakeMessage::InfoResponse { ssid, key, bssid },
            ..
        } => {
            assert_eq!((ssid.as_str(), key.as_str()), ("net", "key"));
            assert_eq!(bssid, "00:11:22:33:44:55");
        }
        _ => unreachable!(),
    }
    assert!(matches!(
        send_params(4, &wifi),
        HandshakeStage::Read { id: MessageId::WifiStartResponse }
    ));
    assert!(matches!(
        send_params(STAGES, &wifi),
        HandshakeStage::Read { id: MessageId::WifiConnectStatus }
    ));
    assert!(matches!(send_params(STAGES + 1, &wifi), HandshakeStage::Done));
}

#[test]
fn what_ends_the_handshake() {
    assert_eq!(
        aa_handshake(false),
        vec![ClosingAction::ShutDownStream, ClosingAction::DisconnectDevice]
    );
    assert_eq!(aa_handshake(true)[2], ClosingAction::PowerOff);
}
