use aa_mirror::aa_services::{
    AAService, AudioChConfiguration, AudioStream, MediaCodec, SensorType, ServerState,
    ServiceType, VideoCodecResolution, VideoFPS,
};
use aa_mirror::channel_manager::{Packet, ENCRYPTED_FULL};
use aa_mirror::config::{AAMode, AppConfig};
use aa_mirror::messages::{
    compose, AudioFocusState, Incoming, MediaSinkEntry, MessageStatus, Outgoing, ServiceEntry,
    VideoEntry,
};
use aa_mirror::protos;
use aa_mirror::service_manager::{
    version_response, ManagerAction, RecordingServer, Service, ServiceManager,
};

fn config() -> AppConfig {
    AppConfig {
        aa_mode: AAMode::Mirror,
        mitm: false,
        developer_mode: false,
        dpi: 0,
        park_mode: false,
        ignore_media_ack: false,
        video_bitrate: 0,
        scrcpy_screen_off: true,
    }
}

fn entry(id: i32) -> ServiceEntry {
    ServiceEntry {
        id,
        media_sink: None,
        media_source: false,
        sensor_source: None,
        input_source: None,
        vendor_extension: false,
        bluetooth: false,
        wifi_projection: false,
    }
}

fn audio_entry(id: i32, audio_type: AudioStream, codec: MediaCodec) -> ServiceEntry {
    ServiceEntry {
        media_sink: Some(MediaSinkEntry {
            available_type: codec,
            audio_type,
            audio_configs: vec![AudioChConfiguration {
                sampling_rate: 48_000,
                number_of_bits: 16,
                number_of_channels: 2,
            }],
            video_configs: vec![],
        }),
        ..entry(id)
    }
}

fn video_entry(id: i32, resolution: VideoCodecResolution, fps: VideoFPS) -> ServiceEntry {
    ServiceEntry {
        media_sink: Some(MediaSinkEntry {
            available_type: MediaCodec::VIDEO_H264_BP,
            audio_type: AudioStream::MEDIA,
            audio_configs: vec![],
            video_configs: vec![VideoEntry {
                codec_resolution: resolution,
                frame_rate: fps,
                density: 160,
            }],
        }),
        ..entry(id)
    }
}

fn all_entries() -> Vec<ServiceEntry> {
    vec![
        ServiceEntry { sensor_source: Some(vec![10, 99, 3]), ..entry(1) },
        video_entry(3, VideoCodecResolution::Video_1080x1920, VideoFPS::FPS_60),
        audio_entry(4, AudioStream::MEDIA, MediaCodec::AUDIO_AAC_LC),
        audio_entry(5, AudioStream::GUIDANCE, MediaCodec::VIDEO_VP9),
        audio_entry(6, AudioStream::TELEPHONY, MediaCodec::AUDIO_PCM),
        ServiceEntry { media_source: true, ..entry(7) },
        ServiceEntry { input_source: Some(vec![3, 84]), ..entry(8) },
        ServiceEntry { bluetooth: true, ..entry(9) },
        ServiceEntry { vendor_extension: true, ..entry(10) },
        ServiceEntry { wifi_projection: true, ..entry(11) },
    ]
}

fn control(id: u16) -> Packet {
    compose(0, ENCRYPTED_FULL, id, &[])
}

fn send(message: Outgoing) -> ManagerAction {
    ManagerAction::Send { channel: 0, flags: ENCRYPTED_FULL, message }
}

fn discovered() -> (ServiceManager, Vec<Service>) {
    let mut m = ServiceManager::new(config());
    let pkt = control(protos::MESSAGE_SERVICE_DISCOVERY_RESPONSE);
    let msg = Incoming::ServiceDiscoveryResponse { services: all_entries() };
    assert!(m.can_handle(&pkt, &msg));
    let (services, actions) = m.handle_hu_message(&pkt, &msg);
    assert_eq!(actions, vec![send(Outgoing::AudioFocusRequest)]);
    (m, services)
}

#[test]
fn the_requested_version_is_sent_back() {
    let mut m = ServiceManager::new(config());
    let pkt = compose(0, 3, protos::MESSAGE_VERSION_REQUEST, &[0, 1, 0, 7]);
    let (services, actions) = m.handle_hu_message(&pkt, &Incoming::Undecoded);
    assert!(services.is_empty());
    assert_eq!(actions, vec![ManagerAction::VersionResponse { major: 1, minor: 7 }]);
    let answer = version_response(1, 7);
    assert_eq!((answer.channel, answer.flags), (0, 3));
    assert_eq!(answer.payload, vec![0, 2, 0, 1, 0, 7, 0, 0]);
}

#[test]
fn authentication_leads_to_discovery() {
    let mut m = ServiceManager::new(config());
    let pkt = control(protos::MESSAGE_AUTH_COMPLETE);
    let ok = Incoming::AuthResponse { status: MessageStatus::Success };
    let bad = Incoming::AuthResponse { status: MessageStatus::Failure };
    assert!(!m.can_handle(&pkt, &bad));
    assert!(!m.can_handle(&pkt, &Incoming::Undecoded));
    assert!(m.can_handle(&pkt, &ok));
    let (_, actions) = m.handle_hu_message(&pkt, &ok);
    assert_eq!(actions, vec![send(Outgoing::ServiceDiscoveryRequest)]);
}

#[test]
fn what_the_manager_cannot_handle() {
    let m = ServiceManager::new(config());
    let none = Incoming::Undecoded;
    let short = Packet { channel: 0, flags: 3, final_length: None, payload: vec![0] };
    assert!(!m.can_handle(&short, &none));
    let version = compose(0, 3, protos::MESSAGE_VERSION_REQUEST, &[0, 1, 0]);
    assert!(!m.can_handle(&version, &none));
    let list = control(protos::MESSAGE_SERVICE_DISCOVERY_RESPONSE);
    assert!(!m.can_handle(&list, &none));
    let negative = Incoming::ServiceDiscoveryResponse {
        services: vec![ServiceEntry { bluetooth: true, ..entry(128) }],
    };
    assert!(!m.can_handle(&list, &negative));
    let unused = Incoming::ServiceDiscoveryResponse {
        services: vec![ServiceEntry { wifi_projection: true, ..entry(128) }],
    };
    assert!(m.can_handle(&list, &unused));
    let other = Packet { channel: 5, flags: 3, final_length: None, payload: vec![] };
    assert!(m.can_handle(&other, &none));
}

#[test]
fn each_entry_leads_to_its_service() {
    let (m, services) = discovered();
    let bases: Vec<(i8, ServiceType)> =
        services.iter().map(|s| (s.base().sid, s.base().srv_type)).collect();
    assert_eq!(
        bases,
        vec![
            (1, ServiceType::SensorSource),
            (3, ServiceType::MediaSink),
            (4, ServiceType::MediaSink),
            (5, ServiceType::SensorSource),
            (7, ServiceType::MediaSource),
            (8, ServiceType::InputSource),
            (9, ServiceType::Bluetooth),
            (10, ServiceType::VendorExtension),
        ]
    );
    assert_eq!(m.sdr_services.len(), 11);
    for (i, slot) in m.sdr_services.iter().enumerate() {
        if let Some(s) = slot {
            assert_eq!(s.sid as usize, i);
        }
    }
    assert!(m.sdr_services[0].is_none());
    assert!(m.sdr_services[6].is_none());
}

#[test]
fn parameters_are_learned_from_the_list() {
    let (m, services) = discovered();
    assert_eq!(
        m.sdr_sensors,
        vec![SensorType::SENSOR_NIGHT_MODE, SensorType::SENSOR_SPEED]
    );
    assert_eq!(m.sdr_keys, vec![3, 84]);
    assert_eq!(m.sdr_control_server_sid, 8);
    let v = m.sdr_video_codec_params;
    assert_eq!((v.bitrate, v.res_w, v.res_h), (16_000_000, 1920, 1080));
    assert_eq!((v.fps, v.dpi, v.sid), (60, 160, 3));
    let a = m.sdr_audio_codec_params;
    assert_eq!((a.codec, a.bitrate, a.sid), (MediaCodec::AUDIO_AAC_LC, 48_000, 4));
    assert_eq!(m.sdr_audio_cfg_guidance.codec, MediaCodec::AUDIO_PCM);
    assert_eq!(m.sdr_audio_cfg_guidance.stream_type, AudioStream::GUIDANCE);
    assert_eq!(m.sdr_audio_cfg_streaming.bitdepth, 16);
    match &services[5] {
        Service::Input(i) => {
            assert_eq!((i.screen_size.width, i.screen_size.height), (1920, 1080));
            assert!(i.cfg_screen_off);
            assert_eq!(i.scrcpy_server, ServerState::Created);
        }
        _ => unreachable!(),
    }
    match &services[3] {
        Service::AudioGuidance(g) => assert!(!g.enabled),
        _ => unreachable!(),
    }
}

#[test]
fn resolutions_and_the_configured_bitrate() {
    let cases = vec![
        (VideoCodecResolution::Video_800x480, (4_000_000, 800, 480)),
        (VideoCodecResolution::Video_720x1280, (8_000_000, 1280, 720)),
        (VideoCodecResolution::Video_1080x1920, (16_000_000, 1920, 1080)),
        (VideoCodecResolution::Video_1920x1080, (4_000_000, 800, 480)),
    ];
    for (resolution, expected) in cases {
        let mut m = ServiceManager::new(config());
        let msg = Incoming::ServiceDiscoveryResponse {
            services: vec![video_entry(2, resolution, VideoFPS::FPS_30)],
        };
        m.handle_hu_message(&control(protos::MESSAGE_SERVICE_DISCOVERY_RESPONSE), &msg);
        let v = m.sdr_video_codec_params;
        assert_eq!((v.bitrate, v.res_w, v.res_h), expected);
        assert_eq!(v.fps, 30);
    }
    let mut m = ServiceManager::new(AppConfig { video_bitrate: 123, ..config() });
    let msg = Incoming::ServiceDiscoveryResponse {
        services: vec![video_entry(2, VideoCodecResolution::Video_800x480, VideoFPS::FPS_30)],
    };
    m.handle_hu_message(&control(protos::MESSAGE_SERVICE_DISCOVERY_RESPONSE), &msg);
    assert_eq!(m.sdr_video_codec_params.bitrate, 123);
}

#[test]
fn a_ping_is_answered_with_its_time_stamp() {
    let mut m = ServiceManager::new(config());
    let pkt = control(protos::MESSAGE_PING_REQUEST);
    let (_, actions) = m.handle_hu_message(&pkt, &Incoming::PingRequest { timestamp: -5 });
    assert_eq!(actions, vec![send(Outgoing::PingResponse { timestamp: -5 })]);
    let (_, actions) = m.handle_hu_message(&pkt, &Incoming::Undecoded);
    assert!(actions.is_empty());
}

#[test]
fn the_audio_focus_opens_the_channels_once() {
    let (mut m, _) = discovered();
    let pkt = control(protos::MESSAGE_AUDIO_FOCUS_NOTIFICATION);
    let focus = |focus_state| Incoming::AudioFocusNotification { focus_state };
    let (_, actions) = m.handle_hu_message(&pkt, &focus(AudioFocusState::GainMediaOnly));
    assert!(actions.is_empty());
    assert!(!m.ch_opened);
    let (_, actions) = m.handle_hu_message(&pkt, &focus(AudioFocusState::Gain));
    let mut expected = vec![ManagerAction::HuConfigDelay];
    for sid in vec![1, 3, 4, 5, 7, 8, 9, 10] {
        expected.push(ManagerAction::Command { sid, command: protos::CMD_OPEN_CH });
    }
    assert_eq!(actions, expected);
    assert!(m.ch_opened);
    // From now on the audio service deals with the focus.
    let (_, actions) = m.handle_hu_message(&pkt, &focus(AudioFocusState::Loss));
    assert_eq!(actions, vec![ManagerAction::Forward { sid: 4 }]);
}

#[test]
fn packets_go_to_the_service_of_their_channel() {
    let (mut m, _) = discovered();
    let none = Incoming::Undecoded;
    let (_, actions) = m.handle_hu_message(&compose(9, 11, 8, &[]), &none);
    assert_eq!(actions, vec![ManagerAction::Forward { sid: 9 }]);
    let (_, actions) = m.handle_hu_message(&compose(6, 11, 8, &[]), &none);
    assert!(actions.is_empty());
    let (_, actions) = m.handle_hu_message(&compose(200, 11, 8, &[]), &none);
    assert!(actions.is_empty());
    let (_, actions) =
        m.handle_hu_message(&control(protos::MESSAGE_UNEXPECTED_MESSAGE), &none);
    assert!(actions.is_empty());
}

#[test]
fn a_later_service_takes_the_place_of_an_earlier_one() {
    let mut m = ServiceManager::new(config());
    m.add_service(AAService::new(ServiceType::Bluetooth, 2));
    m.add_service(AAService::new(ServiceType::MediaSource, 0));
    m.add_service(AAService::new(ServiceType::VendorExtension, 2));
    assert_eq!(m.sdr_services.len(), 3);
    assert_eq!(m.sdr_services[2].unwrap().srv_type, ServiceType::VendorExtension);
    assert!(m.sdr_services[1].is_none());
}

#[test]
fn servers_start_when_all_are_ready() {
    let (mut m, _) = discovered();
    assert!(m.server_ready(RecordingServer::Audio).is_empty());
    assert!(m.server_ready(RecordingServer::Audio).is_empty());
    assert!(m.server_ready(RecordingServer::Control).is_empty());
    let expected = vec![
        ManagerAction::StartAdbServer,
        ManagerAction::Delay { millis: 500 },
        ManagerAction::Command { sid: 3, command: protos::CMD_START_VIDEO_RECORDING },
        ManagerAction::Delay { millis: 100 },
        ManagerAction::Command { sid: 4, command: protos::CMD_START_AUDIO_RECORDING },
        ManagerAction::Delay { millis: 100 },
        ManagerAction::Command { sid: 8, command: protos::CMD_START_CONTROL_SERVER },
    ];
    assert_eq!(m.server_ready(RecordingServer::Video), expected);
    assert_eq!(m.start_adb_servers(), expected);
}

#[test]
fn a_missing_service_ends_the_session() {
    let m = ServiceManager::new(config());
    let actions = m.start_adb_servers();
    assert_eq!(actions[2], ManagerAction::Cancel);
    assert_eq!(actions[4], ManagerAction::Cancel);
    assert_eq!(actions[6], ManagerAction::Cancel);
}
