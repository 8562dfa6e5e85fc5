use std::collections::VecDeque;
use std::io::{Error, ErrorKind, Read, Write};

use aa_mirror::aa_services::{AAMessageType, ServiceType};
use aa_mirror::channel_manager::{DeviceType, Packet, SslStreams};
use aa_mirror::config::{AAMode, AppConfig, HexdumpLevel};
use aa_mirror::messages::ServiceEntry;
use aa_mirror::packet_hooks::{
    modify_sensor_batch, modify_service_discovery, pkt_debug, pkt_modify_hook, replace_body,
    Axes, Compass, DeadReckoning, DebugBody, Gear, HeadUnitNames, MessageKind, ModifyTarget,
    PacketDebug, SensorBatchInfo, ServiceDiscoveryInfo,
};
use aa_mirror::protos;
use aa_mirror::relay::{route, Engine, Route};
use aa_mirror::tls_proxy::{
    failure_ends_proxy, run_aa_mitm, ssl_check_failure, ssl_code_is_fatal, ChannelKinds,
    HandshakeWait, InboundStep, MediaStep, MirrorHandshake, MitmHandshake, MitmPhase,
    OutboundStep, ProxyFailure, ProxyMode, StartError, TlsPacketProxy,
};

fn config() -> AppConfig {
    AppConfig {
        aa_mode: AAMode::Mirror,
        mitm: false,
        developer_mode: false,
        dpi: 0,
        park_mode: false,
        ignore_media_ack: false,
        video_bitrate: 0,
        scrcpy_screen_off: false,
    }
}

fn packet(channel: u8, flags: u8, payload: &[u8]) -> Packet {
    Packet { channel, flags, final_length: None, payload: payload.to_vec() }
}

fn entry(id: i32) -> ServiceEntry {
    ServiceEntry {
        id,
        media_sink: None,
        media_source: false,
        sensor_source: None,
        input_source: None,
        vendor_extension: false,
        bluetooth: false,
        wifi_projection: false,
    }
}

/// A connection over which nothing arrives.
struct Silent;

impl Read for Silent {
    fn read(&mut self, _buf: &mut [u8]) -> std::io::Result<usize> {
        Err(Error::from(ErrorKind::WouldBlock))
    }
}

impl Write for Silent {
    fn write(&mut self, buf: &[u8]) -> std::io::Result<usize> {
        Ok(buf.len())
    }

    fn flush(&mut self) -> std::io::Result<()> {
        Ok(())
    }
}

/// A connection over which something other than TLS arrives.
struct Noise;

impl Read for Noise {
    fn read(&mut self, buf: &mut [u8]) -> std::io::Result<usize> {
        for b in buf.iter_mut() {
            *b = 0x41;
        }
        Ok(buf.len())
    }
}

impl Write for Noise {
    fn write(&mut self, buf: &[u8]) -> std::io::Result<usize> {
        Ok(buf.len())
    }

    fn flush(&mut self) -> std::io::Result<()> {
        Ok(())
    }
}

fn client() -> openssl::ssl::Ssl {
    let method = openssl::ssl::SslMethod::tls();
    let ctx = openssl::ssl::SslContextBuilder::new(method).unwrap().build();
    let mut ssl = openssl::ssl::Ssl::new(&ctx).unwrap();
    ssl.set_connect_state();
    ssl
}

#[test]
fn waiting_for_data_is_no_failure() {
    let mut stream = openssl::ssl::SslStream::new(client(), Silent).unwrap();
    let res = stream.do_handshake();
    assert_eq!(res.as_ref().unwrap_err().code().as_raw(), 2);
    assert!(ssl_check_failure(res).is_ok());
}

#[test]
fn a_broken_handshake_is_a_failure() {
    let mut stream = openssl::ssl::SslStream::new(client(), Noise).unwrap();
    let res = stream.do_handshake();
    assert_eq!(res.as_ref().unwrap_err().code().as_raw(), 1);
    let failure = ssl_check_failure(res).unwrap_err();
    assert_eq!(failure.code().as_raw(), 1);
}

#[test]
fn success_is_no_failure() {
    let res: Result<u8, openssl::ssl::Error> = Ok(1);
    assert!(ssl_check_failure(res).is_ok());
}

#[test]
fn which_codes_are_fatal() {
    for code in 0..12 {
        assert_eq!(ssl_code_is_fatal(code), code != 2 && code != 3 && code != 5);
    }
}

#[test]
fn the_mode_and_what_it_needs() {
    let mirror = TlsPacketProxy::new(HexdumpLevel::Disabled, config());
    assert_eq!(mirror.start(false, true), Ok(ProxyMode::Mirror));
    assert_eq!(mirror.start(true, false), Err(StartError::NoServices));
    let pass = TlsPacketProxy::new(HexdumpLevel::Disabled, AppConfig { aa_mode: AAMode::PassThrough, ..config() });
    assert_eq!(pass.start(true, false), Ok(ProxyMode::PassThrough));
    assert_eq!(pass.start(false, true), Err(StartError::NoMobileDevice));
    let mitm = TlsPacketProxy::new(HexdumpLevel::Disabled, AppConfig {
        aa_mode: AAMode::PassThrough,
        mitm: true,
        ..config()
    });
    assert_eq!(mitm.start(true, true), Ok(ProxyMode::Mitm));
}

#[test]
fn bytes_are_counted_with_their_headers() {
    let mut p = TlsPacketProxy::new(HexdumpLevel::Disabled, config());
    p.run_aa_pt_from_hu(&packet(1, 11, &[0; 10]));
    p.run_aa_pt_from_hu(&packet(1, 11, &[]));
    p.run_aa_pt_from_md(&packet(1, 11, &[0; 3]));
    assert_eq!(p.take_statistics(), (18, 7));
    assert_eq!(p.take_statistics(), (0, 0));
}

#[test]
fn nothing_encrypted_moves_before_the_handshake() {
    let mut p = TlsPacketProxy::new(HexdumpLevel::Disabled, config());
    let secret = packet(1, 11, &[1, 2, 3]);
    let hello = packet(0, 3, &[0, 3, 9]);
    let plain = packet(0, 3, &[0, 1]);
    assert_eq!(p.from_head_unit(&secret), InboundStep::Drop);
    assert_eq!(p.from_mobile_device(&secret), InboundStep::Drop);
    assert_eq!(p.from_service(&secret), OutboundStep::Drop);
    assert_eq!(p.from_head_unit(&hello), InboundStep::Handshake);
    assert_eq!(p.from_mobile_device(&hello), InboundStep::Forward);
    assert_eq!(p.from_head_unit(&plain), InboundStep::Forward);
    assert_eq!(p.from_service(&plain), OutboundStep::Transmit);
    assert_eq!(p.take_statistics(), (7 + 7 + 6, 7 + 7 + 6));
    p.ssl_handshake_done = true;
    assert_eq!(p.from_head_unit(&secret), InboundStep::Decrypt);
    assert_eq!(p.from_mobile_device(&secret), InboundStep::Decrypt);
    assert_eq!(p.from_service(&secret), OutboundStep::Encrypt);
    assert_eq!(p.from_head_unit(&hello), InboundStep::Forward);
}

#[test]
fn an_encrypted_packet_counts_once_it_is_encrypted() {
    let mut p = TlsPacketProxy::new(HexdumpLevel::Disabled, config());
    p.ssl_handshake_done = true;
    let secret = packet(1, 11, &[0; 20]);
    p.from_service(&secret);
    assert_eq!(p.w_statistics, 0);
    assert!(!p.service_encrypted(&secret, 20));
    assert!(p.service_encrypted(&secret, 19));
    assert_eq!(p.w_statistics, 48);
}

#[test]
fn acknowledgements_go_to_who_waits_for_them() {
    let mut p = TlsPacketProxy::new(HexdumpLevel::Disabled, config());
    let ack = [0x80, 0x04];
    assert_eq!(p.mirror_decrypted(&packet(3, 11, &ack)), MediaStep::Forward);
    p.audio_sid = 4;
    p.video_sid = 3;
    assert_eq!(p.mirror_decrypted(&packet(3, 11, &ack)), MediaStep::Ignore);
    p.video_ack = true;
    p.audio_ack = true;
    assert_eq!(p.mirror_decrypted(&packet(3, 11, &ack)), MediaStep::AckVideo);
    assert_eq!(p.mirror_decrypted(&packet(4, 11, &ack)), MediaStep::AckAudio);
    assert_eq!(p.mirror_decrypted(&packet(4, 11, &[0, 0])), MediaStep::Ignore);
    assert_eq!(p.mirror_decrypted(&packet(5, 11, &ack)), MediaStep::Forward);
    p.cfg.ignore_media_ack = true;
    assert_eq!(p.mirror_decrypted(&packet(3, 11, &ack)), MediaStep::Ignore);
}

#[test]
fn which_failures_end_the_proxy() {
    let modes = vec![ProxyMode::Mirror, ProxyMode::PassThrough, ProxyMode::Mitm];
    for mode in modes {
        assert!(failure_ends_proxy(mode, ProxyFailure::Transmit));
        assert!(!failure_ends_proxy(mode, ProxyFailure::Decrypt));
        assert!(!failure_ends_proxy(mode, ProxyFailure::Forward));
        assert_eq!(
            failure_ends_proxy(mode, ProxyFailure::Encrypt),
            mode == ProxyMode::Mirror
        );
    }
}

#[test]
fn the_handshake_with_the_head_unit() {
    let mut proxy = TlsPacketProxy::new(HexdumpLevel::Disabled, config());
    let mut hu = SslStreams::new();
    let mut h = MirrorHandshake::Idle;
    let step = h.begin(&packet(0, 3, &[0, 3, 0xA1]), &mut hu);
    assert_eq!(step.wait, HandshakeWait::ServerAccept);
    assert_eq!(hu.client_stream, VecDeque::from(vec![0xA1]));
    hu.write(&[0xB1]);
    let step = h.engine_stepped(&mut proxy, false, &mut hu);
    assert_eq!(step.to_hu.unwrap().payload, vec![0, 3, 0xB1]);
    assert!(step.to_md.is_none());
    assert_eq!(step.wait, HandshakeWait::HuPacket);
    let step = h.packet_from_hu(&packet(0, 3, &[0, 3, 0xA2]), &mut hu);
    assert_eq!(step.wait, HandshakeWait::ServerAccept);
    hu.write(&[0xB2]);
    let step = h.engine_stepped(&mut proxy, true, &mut hu);
    assert_eq!(step.to_hu.unwrap().payload, vec![0, 3, 0xB2]);
    assert_eq!(step.wait, HandshakeWait::Complete);
    assert!(proxy.ssl_handshake_done);
    assert_eq!(h, MirrorHandshake::Idle);
}

#[test]
fn the_handshakes_with_both_peers() {
    let mut proxy = TlsPacketProxy::new(HexdumpLevel::Disabled, config());
    let mut md = SslStreams::new();
    let mut hu = SslStreams::new();
    let mut h = MitmHandshake::new();
    assert_eq!(h.phase, MitmPhase::Idle);
    let step = h.begin(packet(0, 3, &[0, 3, 0xA1]));
    assert_eq!(step.wait, HandshakeWait::ClientHandshake);
    md.write(&[0xC1]);
    let step = h.engine_stepped(&mut proxy, false, &mut md, &mut hu);
    assert_eq!(step.to_md.unwrap().payload, vec![0, 3, 0xC1]);
    assert!(step.to_hu.is_none());
    assert_eq!(step.wait, HandshakeWait::MdPacket);
    assert_eq!(proxy.r_statistics, 7);
    let step = h.packet_from_md(&packet(0, 3, &[0, 3, 0xD1]), &mut md, &mut hu);
    assert_eq!(step.wait, HandshakeWait::ServerAccept);
    assert_eq!(md.client_stream, VecDeque::from(vec![0xD1]));
    assert_eq!(hu.client_stream, VecDeque::from(vec![0xA1]));
    assert!(h.hello.is_none());
    let step = h.engine_stepped(&mut proxy, false, &mut md, &mut hu);
    assert_eq!(step.wait, HandshakeWait::ClientHandshake);
    md.write(&[0xC2]);
    hu.write(&[0xB1]);
    let step = h.engine_stepped(&mut proxy, false, &mut md, &mut hu);
    assert_eq!(step.to_md.unwrap().payload, vec![0, 3, 0xC2]);
    assert_eq!(step.to_hu.unwrap().payload, vec![0, 3, 0xB1]);
    assert_eq!(step.wait, HandshakeWait::MdPacket);
    let step = h.packet_from_md(&packet(0, 3, &[0, 3, 0xD2]), &mut md, &mut hu);
    assert_eq!(step.wait, HandshakeWait::HuPacket);
    let step = h.packet_from_hu(&packet(0, 3, &[0, 3, 0xA2]), &mut hu);
    assert_eq!(step.wait, HandshakeWait::ServerAccept);
    let step = h.engine_stepped(&mut proxy, true, &mut md, &mut hu);
    assert_eq!(step.wait, HandshakeWait::ClientHandshake);
    assert!(!proxy.ssl_handshake_done);
    let step = h.engine_stepped(&mut proxy, true, &mut md, &mut hu);
    assert_eq!(step.wait, HandshakeWait::Complete);
    assert!(step.to_md.is_some() && step.to_hu.is_some());
    assert!(proxy.ssl_handshake_done);
    assert_eq!(h.phase, MitmPhase::Idle);
}

#[test]
fn the_last_entry_decides_on_a_channel() {
    let mut k = ChannelKinds::new();
    assert_eq!(k.get(0), AAMessageType::Control);
    assert_eq!(k.get(1), AAMessageType::Unknown);
    k.learn(&vec![
        ServiceEntry { sensor_source: Some(vec![]), ..entry(1) },
        ServiceEntry { media_source: true, ..entry(2) },
        ServiceEntry { input_source: Some(vec![]), ..entry(3) },
        ServiceEntry { bluetooth: true, ..entry(4) },
        ServiceEntry { vendor_extension: true, ..entry(5) },
        ServiceEntry { wifi_projection: true, ..entry(6) },
        ServiceEntry { bluetooth: true, ..entry(1) },
        entry(2),
    ]);
    assert_eq!(k.get(1), AAMessageType::Bluetooth);
    assert_eq!(k.get(2), AAMessageType::Media);
    assert_eq!(k.get(3), AAMessageType::Input);
    assert_eq!(k.get(4), AAMessageType::Bluetooth);
    assert_eq!(k.get(5), AAMessageType::VendorExtension);
    assert_eq!(k.get(6), AAMessageType::WiFiProjection);
    assert_eq!(k.get(0), AAMessageType::Control);
}

#[test]
fn the_gateway_learns_before_it_changes() {
    let cfg = AppConfig { developer_mode: true, park_mode: true, ..config() };
    let mut k = ChannelKinds::new();
    let entries = vec![ServiceEntry { sensor_source: Some(vec![]), ..entry(2) }];
    let list = packet(0, 11, &[0, 6]);
    let batch = packet(2, 11, &[0x80, 0x03]);
    assert_eq!(
        run_aa_mitm(&cfg, &mut k, &batch, None),
        (AAMessageType::Unknown, ModifyTarget::Nothing)
    );
    assert_eq!(
        run_aa_mitm(&cfg, &mut k, &list, Some(&entries)),
        (AAMessageType::Control, ModifyTarget::ServiceDiscovery)
    );
    assert_eq!(
        run_aa_mitm(&cfg, &mut k, &batch, None),
        (AAMessageType::Sensor, ModifyTarget::SensorBatch)
    );
    // A list on another channel is none.
    let mut fresh = ChannelKinds::new();
    run_aa_mitm(&cfg, &mut fresh, &packet(1, 11, &[0, 6]), Some(&entries));
    assert_eq!(fresh.get(2), AAMessageType::Unknown);
}

#[test]
fn what_the_configuration_lets_change() {
    let list = packet(0, 11, &[0, 6]);
    let batch = packet(2, 11, &[0x80, 0x03]);
    let plain = config();
    assert_eq!(
        pkt_modify_hook(&plain, &list, AAMessageType::Control),
        ModifyTarget::Nothing
    );
    let dpi = AppConfig { dpi: 200, ..config() };
    assert_eq!(
        pkt_modify_hook(&dpi, &list, AAMessageType::Control),
        ModifyTarget::ServiceDiscovery
    );
    assert_eq!(
        pkt_modify_hook(&dpi, &batch, AAMessageType::Sensor),
        ModifyTarget::Nothing
    );
    let park = AppConfig { park_mode: true, ..config() };
    assert_eq!(
        pkt_modify_hook(&park, &batch, AAMessageType::Sensor),
        ModifyTarget::SensorBatch
    );
    assert_eq!(
        pkt_modify_hook(&park, &batch, AAMessageType::Media),
        ModifyTarget::Nothing
    );
}

#[test]
fn a_new_body_keeps_the_number() {
    let mut p = packet(2, 11, &[0x80, 0x03, 1, 2, 3]);
    replace_body(&mut p, &[9]);
    assert_eq!(p.payload, vec![0x80, 0x03, 9]);
    assert_eq!(p.channel, 2);
}

#[test]
fn the_head_unit_gets_development_names() {
    let names = || HeadUnitNames {
        make: "A".to_string(),
        model: "B".to_string(),
        head_unit_make: "C".to_string(),
        head_unit_model: "D".to_string(),
    };
    let mut msg = ServiceDiscoveryInfo {
        names: names(),
        headunit_info: Some(names()),
        densities: vec![vec![], vec![100, 110], vec![120]],
    };
    let (make, model) = ("Google".to_string(), "Desktop".to_string());
    let cfg = AppConfig { dpi: 300, ..config() };
    modify_service_discovery(&cfg, &make, &model, &mut msg);
    assert_eq!(msg.names.make, "A");
    assert_eq!(msg.densities, vec![vec![], vec![300, 110], vec![120]]);
    let dev = AppConfig { developer_mode: true, ..config() };
    modify_service_discovery(&dev, &make, &model, &mut msg);
    let info = msg.headunit_info.unwrap();
    for n in vec![msg.names, info] {
        assert_eq!(n.make, "Google");
        assert_eq!(n.model, "Desktop");
        assert_eq!(n.head_unit_make, "Google");
        assert_eq!(n.head_unit_model, "Desktop");
    }
    assert_eq!(msg.densities[1][0], 300);
}

#[test]
fn a_parked_vehicle_reports_no_motion() {
    let axes = Axes { x_e3: 5, y_e3: 6, z_e3: 7 };
    let mut msg = SensorBatchInfo {
        driving_status: vec![31, 2],
        gear: vec![Gear::Other { number: 4 }],
        parking_brake: vec![false, false],
        accelerometer: vec![axes],
        gyroscope: vec![axes, axes],
        dead_reckoning: vec![DeadReckoning { steering_angle_e1: 9, wheel_speed_e3: vec![1] }],
        compass: vec![Compass { bearing_e6: 1, pitch_e6: 2, roll_e6: 3 }],
    };
    modify_sensor_batch(&mut msg);
    assert_eq!(msg.driving_status, vec![0, 2]);
    assert_eq!(msg.gear, vec![Gear::Park]);
    assert_eq!(msg.parking_brake, vec![true, false]);
    assert_eq!(msg.accelerometer, vec![Axes { x_e3: 0, y_e3: 0, z_e3: 9810 }]);
    assert_eq!(msg.gyroscope, vec![Axes { x_e3: 0, y_e3: 0, z_e3: 0 }, axes]);
    assert_eq!(msg.dead_reckoning[0].steering_angle_e1, 0);
    assert_eq!(msg.dead_reckoning[0].wheel_speed_e3, vec![0, 0, 0, 0]);
    assert_eq!(msg.compass, vec![Compass { bearing_e6: 1, pitch_e6: 0, roll_e6: 0 }]);
    let mut empty = SensorBatchInfo {
        driving_status: vec![],
        gear: vec![],
        parking_brake: vec![],
        accelerometer: vec![],
        gyroscope: vec![],
        dead_reckoning: vec![],
        compass: vec![],
    };
    modify_sensor_batch(&mut empty);
    assert!(empty.gear.is_empty() && empty.dead_reckoning.is_empty());
}

#[test]
fn which_messages_are_shown() {
    let p = |id: u16| packet(0, 3, &id.to_be_bytes());
    let shown = |pkt: &Packet| {
        pkt_debug(true, HexdumpLevel::RawInput, HexdumpLevel::DecryptedInput, pkt)
    };
    let message = |kind: MessageKind| {
        Some(PacketDebug { dump: false, body: DebugBody::Message { kind } })
    };
    let nothing = Some(PacketDebug { dump: false, body: DebugBody::Nothing });
    let unknown = Some(PacketDebug { dump: false, body: DebugBody::UnknownType });
    assert_eq!(shown(&p(1)), message(MessageKind::VersionRequest));
    assert_eq!(shown(&p(11)), message(MessageKind::PingRequest));
    assert_eq!(shown(&p(19)), message(MessageKind::AudioFocusNotification));
    assert_eq!(shown(&p(3)), nothing);
    assert_eq!(shown(&packet(0, 3, &[1])), None);
    assert_eq!(pkt_debug(false, HexdumpLevel::Disabled, HexdumpLevel::All, &p(1)), None);
    let proxy = TlsPacketProxy::new(HexdumpLevel::DecryptedInput, config());
    let passing =
        |kind: AAMessageType, pkt: &Packet| {
            proxy.pkt_debug(true, kind, HexdumpLevel::All, proxy.dmp_level, pkt)
        };
    assert_eq!(passing(AAMessageType::Control, &p(11)), nothing);
    assert_eq!(passing(AAMessageType::Control, &p(7)), message(MessageKind::ChannelOpenRequest));
    let id = protos::MEDIA_MESSAGE_CONFIG;
    assert_eq!(passing(AAMessageType::Media, &p(id)), message(MessageKind::Config));
    assert_eq!(passing(AAMessageType::Sensor, &p(id)), message(MessageKind::SensorBatch));
    assert_eq!(passing(AAMessageType::Input, &p(id)), unknown);
    assert_eq!(passing(AAMessageType::Media, &p(0x8004)), nothing);
    assert_eq!(passing(AAMessageType::Media, &packet(0, 3, &[])), None);
    let level = HexdumpLevel::Disabled;
    assert_eq!(proxy.pkt_debug(false, AAMessageType::Media, level, level, &p(1)), None);
}

#[test]
fn levels_of_dumps_include_those_before() {
    let levels = [
        HexdumpLevel::Disabled,
        HexdumpLevel::DecryptedInput,
        HexdumpLevel::RawInput,
        HexdumpLevel::DecryptedOutput,
        HexdumpLevel::RawOutput,
        HexdumpLevel::All,
    ];
    for i in 0..levels.len() {
        for k in 0..levels.len() {
            assert_eq!(levels[i].includes(levels[k]), i >= k);
            let shown = pkt_debug(true, levels[k], levels[i], &packet(0, 3, &[0, 1])).unwrap();
            assert_eq!(shown.dump, i >= k);
        }
    }
}

#[test]
fn packets_as_text() {
    for final_length in [None, Some(0x10), Some(0x12_3ABC)] {
        for payload in [vec![], vec![0x0A], vec![0x00, 0xFF, 0x1B]] {
            let p = Packet { channel: 3, flags: 0xAB, final_length, payload };
            let expected = format!(
                "packet dump:\n channel: {:02X}\n flags: {:02X}\n final length: {:04X?}\n payload: {:02X?}\n",
                p.channel,
                p.flags,
                p.final_length,
                p.payload.clone().into_iter()
            );
            assert_eq!(p.to_text(), expected);
        }
    }
    let p = Packet { channel: 0, flags: 11, final_length: Some(1), payload: vec![1, 0xEF] };
    assert_eq!(
        p.to_text(),
        "packet dump:\n channel: 00\n flags: 0B\n final length: Some(0001)\n payload: IntoIter([01, EF])\n"
    );
}

#[test]
fn service_types_as_text() {
    assert_eq!(ServiceType::Unset.to_text(), "None");
    for t in [
        ServiceType::Control,
        ServiceType::InputSource,
        ServiceType::MediaSink,
        ServiceType::MediaSource,
        ServiceType::SensorSource,
        ServiceType::VendorExtension,
        ServiceType::Bluetooth,
    ] {
        assert_eq!(t.to_text(), format!("{:?}", t));
    }
}

#[test]
fn changes_are_made_once() {
    let names = || HeadUnitNames {
        make: "A".to_string(),
        model: "B".to_string(),
        head_unit_make: "C".to_string(),
        head_unit_model: "D".to_string(),
    };
    let (make, model) = ("Google".to_string(), "Desktop".to_string());
    let cfg = AppConfig { dpi: 200, ..config() };
    let mut msg = ServiceDiscoveryInfo {
        names: names(),
        headunit_info: None,
        densities: vec![vec![], vec![100, 110], vec![120]],
    };
    for _ in 0..2 {
        modify_service_discovery(&cfg, &make, &model, &mut msg);
        assert_eq!(msg.densities, vec![vec![], vec![200, 110], vec![120]]);
    }
    let mut none =
        ServiceDiscoveryInfo { names: names(), headunit_info: None, densities: vec![vec![]] };
    modify_service_discovery(&cfg, &make, &model, &mut none);
    assert_eq!(none.densities, vec![Vec::<u32>::new()]);
    let mut batch = SensorBatchInfo {
        driving_status: vec![7, 8],
        gear: vec![],
        parking_brake: vec![false],
        accelerometer: vec![],
        gyroscope: vec![],
        dead_reckoning: vec![],
        compass: vec![],
    };
    for _ in 0..2 {
        modify_sensor_batch(&mut batch);
        assert_eq!(batch.driving_status, vec![0, 8]);
        assert_eq!(batch.parking_brake, vec![true]);
    }
}

#[test]
fn a_handshake_ends_after_its_steps() {
    let mut proxy = TlsPacketProxy::new(HexdumpLevel::Disabled, config());
    let (mut md, mut hu) = (SslStreams::new(), SslStreams::new());
    let mut handshake = MitmHandshake::new();
    let mut wait = handshake.begin(packet(0, 3, &[0, 3, 1])).wait;
    let mut steps = 0;
    while wait != HandshakeWait::Complete {
        let pkt = packet(0, 3, &[0, 3, 9]);
        wait = match wait {
            HandshakeWait::MdPacket => handshake.packet_from_md(&pkt, &mut md, &mut hu).wait,
            HandshakeWait::HuPacket => handshake.packet_from_hu(&pkt, &mut hu).wait,
            _ => handshake.engine_stepped(&mut proxy, true, &mut md, &mut hu).wait,
        };
        steps += 1;
    }
    assert_eq!(steps, 8);
    assert_eq!(handshake.phase, MitmPhase::Idle);
    assert!(proxy.ssl_handshake_done);
}

#[test]
fn packets_go_to_the_other_side() {
    let to_md = Route {
        source: DeviceType::HeadUnit,
        decrypt: Some(Engine::Server),
        hook: true,
        encrypt: Some(Engine::Client),
        target: DeviceType::MobileDevice,
    };
    let to_hu = Route {
        source: DeviceType::MobileDevice,
        decrypt: Some(Engine::Client),
        hook: false,
        encrypt: Some(Engine::Server),
        target: DeviceType::HeadUnit,
    };
    assert_eq!(route(DeviceType::HeadUnit, InboundStep::Decrypt), Some(to_md));
    assert_eq!(route(DeviceType::MobileDevice, InboundStep::Decrypt), Some(to_hu));
    assert_eq!(
        route(DeviceType::HeadUnit, InboundStep::Forward),
        Some(Route { decrypt: None, hook: false, encrypt: None, ..to_md })
    );
    assert_eq!(
        route(DeviceType::MobileDevice, InboundStep::Forward),
        Some(Route { decrypt: None, hook: false, encrypt: None, ..to_hu })
    );
    for peer in [DeviceType::HeadUnit, DeviceType::MobileDevice] {
        assert_eq!(route(peer, InboundStep::Drop), None);
        assert_eq!(route(peer, InboundStep::Handshake), None);
    }
}

#[test]
fn only_packets_of_the_head_unit_are_changed() {
    let to_md = route(DeviceType::HeadUnit, InboundStep::Decrypt).unwrap();
    let to_hu = route(DeviceType::MobileDevice, InboundStep::Decrypt).unwrap();
    let mut p = packet(2, 11, &[0x80, 0x03, 1, 2, 3]);
    to_hu.change(&mut p, ModifyTarget::SensorBatch, Some(vec![9]));
    assert_eq!(p.payload, vec![0x80, 0x03, 1, 2, 3]);
    to_md.change(&mut p, ModifyTarget::Nothing, Some(vec![9]));
    assert_eq!(p.payload, vec![0x80, 0x03, 1, 2, 3]);
    to_md.change(&mut p, ModifyTarget::SensorBatch, None);
    assert_eq!(p.payload, vec![0x80, 0x03, 1, 2, 3]);
    to_md.change(&mut p, ModifyTarget::SensorBatch, Some(vec![9]));
    assert_eq!(p.payload, vec![0x80, 0x03, 9]);
    assert_eq!((p.channel, p.flags, p.final_length), (2, 11, None));
}
