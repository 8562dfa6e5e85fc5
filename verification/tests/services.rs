use aa_mirror::aa_services::{
    plain_step, sensor_step, AAService, Action, AudioConfig, AudioStream,
    AudioStreamingParams, CommandState, MediaCodec, QueueClosed, QueueOutcome, SensorType,
    ServerState, ServiceStatus, ServiceType, SrvBluetooth, SrvMediaSource, SrvSensorSource,
    SrvVendorExtension, VideoStreamingParams, NIGHT_MODE_PERIOD,
};
use aa_mirror::channel_manager::{Packet, ENCRYPTED_FULL, ENCRYPTED_FULL_CONTROL};
use aa_mirror::media_sinks::{
    AudioPlayback, FocusChange, Projection, SrvInputSource, SrvMediaSinkAudioGuidance,
    SrvMediaSinkAudioStreaming, SrvMediaSinkVideoStreaming,
};
use aa_mirror::messages::{
    compose, compose_command, is_readable, kind_to_decode, read_command, seal, AudioFocusState,
    ConfigStatus, Incoming, IncomingKind, MessageStatus, Outgoing, Reader, VideoFocusMode,
};
use aa_mirror::protos;
use aa_mirror::scrcpy::ScrcpySize;
use aa_mirror::service_tasks::{
    next_packet, show_first_screen, th_bluetooth, th_input_source, th_media_sink_audio_guidance,
    th_media_sink_audio_streaming, th_media_sink_video, th_media_source, th_sensor_source,
    th_vendor_extension, AudioTask, TaskEnd, VideoTask,
};

fn message(channel: u8, id: u16) -> Packet {
    compose(channel, ENCRYPTED_FULL, id, &[])
}

fn command(channel: u8, command: u16) -> Packet {
    compose_command(channel, command, &[])
}

fn send(channel: u8, message: Outgoing) -> Action {
    Action::Send { channel, flags: ENCRYPTED_FULL, message }
}

fn open(channel: u8) -> Action {
    Action::Send {
        channel,
        flags: ENCRYPTED_FULL_CONTROL,
        message: Outgoing::ChannelOpenRequest { priority: 0, service_id: channel as i32 },
    }
}

fn start(channel: u8, session_id: i32) -> Action {
    send(channel, Outgoing::Start { session_id, configuration_index: 0 })
}

fn opened() -> Incoming {
    Incoming::ChannelOpenResponse { status: MessageStatus::Success }
}

fn ready(max_unacked: u32) -> Incoming {
    Incoming::Config { config_status: ConfigStatus::Ready, max_unacked }
}

fn focus(focus: VideoFocusMode) -> Incoming {
    Incoming::VideoFocusNotification { focus }
}

fn audio_focus(focus_state: AudioFocusState) -> Incoming {
    Incoming::AudioFocusNotification { focus_state }
}

fn audio(codec: MediaCodec) -> AudioConfig {
    AudioConfig { codec, ..AudioConfig::default() }
}

#[test]
fn defaults() {
    assert_eq!(ServiceType::default(), ServiceType::Unset);
    assert_eq!(CommandState::default(), CommandState::NotDone);
    let status = ServiceStatus::default();
    assert_eq!(status.open_ch_cmd, CommandState::NotDone);
    assert_eq!(status.service_type, ServiceType::Unset);
    assert_eq!((status.ch_id, status.enabled), (0, false));
    let cfg = AudioConfig::default();
    assert_eq!(cfg.codec, MediaCodec::AUDIO_PCM);
    assert_eq!(cfg.stream_type, AudioStream::MEDIA);
    assert_eq!((cfg.bitrate, cfg.channels, cfg.bitdepth), (1_000_000, 2, 16));
}

#[test]
fn sensor_numbers() {
    assert_eq!(SensorType::from_number(1), Some(SensorType::SENSOR_LOCATION));
    assert_eq!(SensorType::from_number(10), Some(SensorType::SENSOR_NIGHT_MODE));
    assert_eq!(SensorType::from_number(24), Some(SensorType::SENSOR_TRAILER_DATA));
    assert_eq!(SensorType::from_number(0), None);
    assert_eq!(SensorType::from_number(25), None);
    assert_eq!(SensorType::from_number(-1), None);
    for a in 1..=24 {
        for b in 1..=24 {
            assert_eq!(
                SensorType::from_number(a) == SensorType::from_number(b),
                a == b
            );
        }
    }
}

#[test]
fn only_a_closed_queue_is_an_error() {
    let s = AAService::new(ServiceType::Bluetooth, 7);
    assert_eq!(s.sid(), 7);
    assert_eq!(s.enqueue_message(QueueOutcome::Sent), Ok(()));
    assert_eq!(s.enqueue_message(QueueOutcome::Full), Ok(()));
    assert_eq!(
        s.enqueue_message(QueueOutcome::Closed),
        Err(QueueClosed { srv_type: ServiceType::Bluetooth, sid: 7 })
    );
}

#[test]
fn messages_and_commands_are_read_back() {
    let p = compose(5, ENCRYPTED_FULL, 0x8003, &[1, 2]);
    assert_eq!((p.channel, p.flags, p.final_length), (5, 11, None));
    assert_eq!(p.payload, vec![0x80, 0x03, 1, 2]);
    assert_eq!(p.message_id(), 0x8003);
    let c = compose_command(5, protos::MD_DISCONNECTED, &[7]);
    assert_eq!(c.flags, 3);
    assert_eq!(c.message_id(), protos::MESSAGE_CUSTOM_CMD);
    assert_eq!(read_command(&c), protos::MD_DISCONNECTED);
    assert_eq!(c.payload[4..], [7]);
    let s = seal(1, 11, &Outgoing::PingResponse { timestamp: 9 }, &[8, 9]);
    assert_eq!(s.payload, vec![0, 12, 8, 9]);
}

#[test]
fn packets_that_handlers_can_look_at() {
    assert!(is_readable(&message(1, 8)));
    assert!(is_readable(&command(1, 1)));
    assert!(!is_readable(&Packet { channel: 1, flags: 3, final_length: None, payload: vec![0] }));
    assert!(!is_readable(&compose(1, 3, protos::MESSAGE_CUSTOM_CMD, &[0])));
}

#[test]
fn numbers_of_outgoing_messages() {
    assert_eq!(Outgoing::Stop.message_id(), 0x8002);
    assert_eq!(Outgoing::Setup { codec: None }.message_id(), 0x8000);
    assert_eq!(Outgoing::KeyBindingRequest.message_id(), 0x8002);
    assert_eq!(Outgoing::ServiceDiscoveryRequest.message_id(), 5);
    assert_eq!(Outgoing::AudioFocusRequest.message_id(), 18);
    assert_eq!(
        Outgoing::ChannelOpenRequest { priority: 0, service_id: 1 }.message_id(),
        7
    );
    assert_eq!(
        Outgoing::SensorRequest {
            sensor: SensorType::SENSOR_NIGHT_MODE,
            min_update_period: 1
        }
        .message_id(),
        0x8001
    );
    assert_eq!(
        Outgoing::Start { session_id: 1, configuration_index: 0 }.message_id(),
        0x8001
    );
}

#[test]
fn what_each_reader_decodes() {
    assert_eq!(kind_to_decode(Reader::Control, 4), Some(IncomingKind::AuthResponse));
    assert_eq!(kind_to_decode(Reader::Control, 8), None);
    assert_eq!(kind_to_decode(Reader::Plain, 8), Some(IncomingKind::ChannelOpenResponse));
    assert_eq!(kind_to_decode(Reader::Plain, 0x8003), None);
    assert_eq!(kind_to_decode(Reader::Sensor, 0x8003), Some(IncomingKind::SensorBatch));
    assert_eq!(kind_to_decode(Reader::Video, 0x8003), Some(IncomingKind::Config));
    assert_eq!(
        kind_to_decode(Reader::Video, 0x8008),
        Some(IncomingKind::VideoFocusNotification)
    );
    assert_eq!(
        kind_to_decode(Reader::AudioStreaming, 19),
        Some(IncomingKind::AudioFocusNotification)
    );
    assert_eq!(kind_to_decode(Reader::AudioGuidance, 19), None);
    assert_eq!(
        kind_to_decode(Reader::Input, 0x8003),
        Some(IncomingKind::KeyBindingResponse)
    );
    assert_eq!(
        kind_to_decode(Reader::ControlServer, 0x8001),
        Some(IncomingKind::InputReport)
    );
    assert_eq!(kind_to_decode(Reader::ControlServer, 8), None);
}

#[test]
fn plain_services_open_their_channels() {
    assert_eq!(
        SrvMediaSource::new(4).handle_message(&command(4, protos::CMD_OPEN_CH)),
        vec![open(4)]
    );
    assert_eq!(
        SrvVendorExtension::new(5).handle_message(&command(5, protos::CMD_OPEN_CH)),
        vec![open(5)]
    );
    let bt = SrvBluetooth::new(6);
    assert_eq!(bt.base.srv_type, ServiceType::Bluetooth);
    assert_eq!(bt.handle_message(&command(6, protos::CMD_OPEN_CH)), vec![open(6)]);
    assert!(bt.handle_message(&command(6, protos::MD_DISCONNECTED)).is_empty());
    assert!(plain_step(6, 6, &message(6, protos::MESSAGE_CHANNEL_OPEN_RESPONSE)).is_empty());
}

#[test]
fn sensors_follow_night_mode() {
    let mut s = SrvSensorSource::new(
        2,
        vec![SensorType::SENSOR_SPEED, SensorType::SENSOR_NIGHT_MODE],
    );
    let none = Incoming::Undecoded;
    assert_eq!(s.handle_message(&command(2, protos::CMD_OPEN_CH), &none), vec![open(2)]);
    let answer = message(2, protos::MESSAGE_CHANNEL_OPEN_RESPONSE);
    assert_eq!(
        s.handle_message(&answer, &opened()),
        vec![send(
            2,
            Outgoing::SensorRequest {
                sensor: SensorType::SENSOR_NIGHT_MODE,
                min_update_period: NIGHT_MODE_PERIOD,
            }
        )]
    );
    assert_eq!(NIGHT_MODE_PERIOD, 1_000_000_000);
    let failed = Incoming::ChannelOpenResponse { status: MessageStatus::Failure };
    assert!(s.handle_message(&answer, &failed).is_empty());
    let batch = message(2, protos::SENSOR_MESSAGE_BATCH);
    let night = |v: Vec<Option<bool>>| Incoming::SensorBatch { night_mode_data: v };
    assert!(s.handle_message(&batch, &night(vec![])).is_empty());
    assert!(s.handle_message(&batch, &night(vec![Some(false)])).is_empty());
    assert_eq!(
        s.handle_message(&batch, &night(vec![Some(true), Some(false)])),
        vec![Action::SwitchTheme { night: true }]
    );
    assert!(s.prev_nt_mode);
    assert!(s.handle_message(&batch, &night(vec![Some(true)])).is_empty());
    assert_eq!(
        s.handle_message(&batch, &night(vec![None])),
        vec![Action::SwitchTheme { night: false }]
    );
}

#[test]
fn no_night_sensor_no_request() {
    let mut night = false;
    let answer = message(2, protos::MESSAGE_CHANNEL_OPEN_RESPONSE);
    let sensors = vec![SensorType::SENSOR_SPEED];
    assert!(sensor_step(2, 2, &sensors, &mut night, &answer, &opened()).is_empty());
    assert!(!night);
}

#[test]
fn focus_comes_goes_and_returns() {
    let mut p = Projection::new();
    assert_eq!(p.notice(VideoFocusMode::Native), FocusChange::Nothing);
    assert_eq!(p.notice(VideoFocusMode::Projected), FocusChange::Begin);
    assert_eq!(p.notice(VideoFocusMode::ProjectedNoInputFocus), FocusChange::Nothing);
    assert_eq!(p.session_id, 1);
    assert_eq!(p.notice(VideoFocusMode::NativeTransient), FocusChange::Pause);
    assert_eq!(p.notice(VideoFocusMode::Native), FocusChange::Nothing);
    assert!(!p.video_focus);
    assert_eq!(p.notice(VideoFocusMode::ProjectedNoInputFocus), FocusChange::Resume);
    assert_eq!(p.session_id, 2);
    assert!(p.video_focus);
}

#[test]
fn video_service_through_a_session() {
    let params = VideoStreamingParams { max_unack: 9, ..VideoStreamingParams::default() };
    let mut v = SrvMediaSinkVideoStreaming::new(3, params, false, true);
    let none = Incoming::Undecoded;
    let setup = send(3, Outgoing::Setup { codec: Some(MediaCodec::VIDEO_H264_BP) });
    assert_eq!(v.handle_message(&command(3, protos::CMD_OPEN_CH), &none), vec![open(3)]);
    assert_eq!(
        v.handle_message(&message(3, protos::MESSAGE_CHANNEL_OPEN_RESPONSE), &opened()),
        vec![setup]
    );
    let config = message(3, protos::MEDIA_MESSAGE_CONFIG);
    let wait = Incoming::Config { config_status: ConfigStatus::Wait, max_unacked: 4 };
    assert!(v.handle_message(&config, &wait).is_empty());
    assert!(!v.config_recived);
    assert!(v.handle_message(&config, &ready(260)).is_empty());
    assert!(v.config_recived);
    assert_eq!(v.video_params.max_unack, 260);
    let report = message(3, protos::MEDIA_MESSAGE_VIDEO_FOCUS_NOTIFICATION);
    assert_eq!(
        v.handle_message(&report, &focus(VideoFocusMode::Projected)),
        vec![start(3, 1), Action::NotifyReady]
    );
    let ack = message(3, protos::MEDIA_MESSAGE_ACK);
    assert!(v.handle_message(&ack, &none).is_empty());
    assert_eq!(
        v.handle_message(&command(3, protos::CMD_START_VIDEO_RECORDING), &none),
        vec![Action::StartServer { max_unack: 4 }]
    );
    assert_eq!(v.scrcpy_server, ServerState::Running);
    assert_eq!(v.handle_message(&ack, &none), vec![Action::Ack]);
    assert_eq!(
        v.handle_message(&report, &focus(VideoFocusMode::Native)),
        vec![Action::SetPaused { paused: true }, send(3, Outgoing::Stop)]
    );
    assert!(v.handle_message(&ack, &none).is_empty());
    assert_eq!(
        v.handle_message(&report, &focus(VideoFocusMode::Projected)),
        vec![Action::SetPaused { paused: false }, start(3, 2)]
    );
    assert_eq!(
        v.handle_message(&command(3, protos::MD_DISCONNECTED), &none),
        vec![send(3, Outgoing::Stop), setup]
    );
    assert!(!v.video_streaming_started);
    assert_eq!(
        v.handle_message(&command(3, protos::CMD_START_VIDEO_RECORDING), &none),
        vec![Action::Cancel]
    );
    assert_eq!(v.scrcpy_server, ServerState::Missing);
}

#[test]
fn ignored_acknowledgements_and_a_disabled_sink() {
    let mut v =
        SrvMediaSinkVideoStreaming::new(3, VideoStreamingParams::default(), true, false);
    v.handle_message(&message(3, protos::MEDIA_MESSAGE_CONFIG), &ready(7));
    assert_eq!(v.video_params.max_unack, 0);
    assert!(v
        .handle_message(&message(3, protos::MESSAGE_CHANNEL_OPEN_RESPONSE), &opened())
        .is_empty());
}

#[test]
fn audio_service_through_a_session() {
    let mut a = SrvMediaSinkAudioStreaming::new(
        4,
        audio(MediaCodec::AUDIO_AAC_LC),
        AudioStreamingParams::default(),
        false,
        true,
    );
    let none = Incoming::Undecoded;
    assert_eq!(a.playback, AudioPlayback::new());
    assert_eq!(
        a.handle_message(&message(4, protos::MESSAGE_CHANNEL_OPEN_RESPONSE), &opened()),
        vec![send(4, Outgoing::Setup { codec: Some(MediaCodec::AUDIO_AAC_LC) })]
    );
    assert!(a.playback.audio_focus);
    let report = message(4, protos::MESSAGE_AUDIO_FOCUS_NOTIFICATION);
    assert!(a.handle_message(&report, &audio_focus(AudioFocusState::Loss)).is_empty());
    assert!(!a.playback.audio_stream_paused);
    assert_eq!(
        a.handle_message(&message(4, protos::MEDIA_MESSAGE_CONFIG), &ready(3)),
        vec![start(4, 2), Action::NotifyReady]
    );
    assert_eq!(
        a.handle_message(&command(4, protos::CMD_START_AUDIO_RECORDING), &none),
        vec![Action::StartServer { max_unack: 3 }]
    );
    assert_eq!(
        a.handle_message(&message(4, protos::MEDIA_MESSAGE_ACK), &none),
        vec![Action::Ack]
    );
    assert_eq!(
        a.handle_message(&report, &audio_focus(AudioFocusState::LossTransient)),
        vec![send(4, Outgoing::Stop), Action::SetPaused { paused: true }]
    );
    assert!(a
        .handle_message(&report, &audio_focus(AudioFocusState::GainTransientGuidanceOnly))
        .is_empty());
    assert_eq!(
        a.handle_message(&report, &audio_focus(AudioFocusState::GainMediaOnly)),
        vec![start(4, 2), Action::SetPaused { paused: false }]
    );
    assert!(a.handle_message(&report, &audio_focus(AudioFocusState::Gain)).is_empty());
    assert_eq!(
        a.handle_message(&command(4, protos::MD_DISCONNECTED), &none),
        vec![send(4, Outgoing::Stop)]
    );
    assert_eq!(
        a.handle_message(&command(4, protos::CMD_START_AUDIO_RECORDING), &none),
        vec![Action::Cancel]
    );
}

#[test]
fn an_unsupported_audio_codec_is_not_recorded() {
    let mut a = SrvMediaSinkAudioStreaming::new(
        4,
        audio(MediaCodec::AUDIO_AAC_LC_ADTS),
        AudioStreamingParams::default(),
        true,
        true,
    );
    assert_eq!(
        a.handle_message(&message(4, protos::MESSAGE_CHANNEL_OPEN_RESPONSE), &opened()),
        vec![send(4, Outgoing::Setup { codec: None })]
    );
    assert!(a
        .handle_message(&message(4, protos::MEDIA_MESSAGE_CONFIG), &ready(3))
        .is_empty());
    assert!(a.playback.config_recived);
    assert!(!a.playback.audio_streaming_started);
    assert_eq!(a.playback.session_id, 1);
    assert_eq!(a.audio_params.max_unack, 0);
}

#[test]
fn guidance_is_set_up_where_enabled() {
    let mut g = SrvMediaSinkAudioGuidance::new(5, audio(MediaCodec::AUDIO_PCM), true);
    assert_eq!(g.base.srv_type, ServiceType::SensorSource);
    assert_eq!(
        g.handle_message(&message(5, protos::MESSAGE_CHANNEL_OPEN_RESPONSE), &opened()),
        vec![send(5, Outgoing::Setup { codec: Some(MediaCodec::AUDIO_PCM) })]
    );
    assert!(g
        .handle_message(&message(5, protos::MEDIA_MESSAGE_CONFIG), &ready(1))
        .is_empty());
    assert!(g.audio_streaming_started);
    let mut off = SrvMediaSinkAudioGuidance::new(5, audio(MediaCodec::AUDIO_AAC_LC), false);
    assert!(off
        .handle_message(&message(5, protos::MESSAGE_CHANNEL_OPEN_RESPONSE), &opened())
        .is_empty());
    off.handle_message(&message(5, protos::MEDIA_MESSAGE_CONFIG), &ready(1));
    assert!(!off.audio_streaming_started);
}

#[test]
fn input_service_starts_its_server_once() {
    let size = ScrcpySize { width: 800, height: 480 };
    let none = Incoming::Undecoded;
    let mut i = SrvInputSource::new(6, vec![3, 4], size, false);
    assert_eq!(i.binding_keys(), &vec![3, 4]);
    assert_eq!(
        i.handle_message(&message(6, protos::MESSAGE_CHANNEL_OPEN_RESPONSE), &opened()),
        vec![send(6, Outgoing::KeyBindingRequest)]
    );
    let report = message(6, protos::INPUT_MESSAGE_INPUT_REPORT);
    assert!(i.handle_message(&report, &none).is_empty());
    assert_eq!(
        i.handle_message(&command(6, protos::CMD_START_CONTROL_SERVER), &none),
        vec![Action::StartControlServer]
    );
    assert_eq!(i.handle_message(&report, &none), vec![Action::ForwardInput]);
    assert_eq!(
        i.handle_message(&command(6, protos::CMD_START_CONTROL_SERVER), &none),
        vec![Action::Cancel]
    );
}

#[test]
fn reporting_ready_uses_the_control_server_up() {
    let size = ScrcpySize { width: 800, height: 480 };
    let mut i = SrvInputSource::new(6, vec![], size, false);
    let bound = message(6, protos::INPUT_MESSAGE_KEY_BINDING_RESPONSE);
    assert!(i.handle_message(&bound, &Incoming::Undecoded).is_empty());
    assert_eq!(i.scrcpy_server, ServerState::Created);
    assert_eq!(
        i.handle_message(&bound, &Incoming::KeyBindingResponse),
        vec![Action::NotifyReady]
    );
    assert_eq!(i.scrcpy_server, ServerState::Missing);
    assert!(i.handle_message(&bound, &Incoming::KeyBindingResponse).is_empty());
}

#[test]
fn services_keep_their_channels() {
    let answer = message(9, protos::MESSAGE_CHANNEL_OPEN_RESPONSE);
    let mut v = SrvMediaSinkVideoStreaming::new(3, VideoStreamingParams::default(), true, true);
    for a in v.handle_message(&answer, &opened()) {
        match a {
            Action::Send { channel, flags, .. } => {
                assert_eq!(channel, 3);
                assert!(flags & 8 != 0);
            }
            _ => unreachable!(),
        }
    }
}

#[test]
fn tasks_drop_packets_of_other_channels() {
    let p = command(9, protos::CMD_OPEN_CH);
    let none = Incoming::Undecoded;
    let mut flag = false;
    assert!(th_media_source(1, &p).is_empty());
    assert!(th_vendor_extension(1, &p).is_empty());
    assert!(th_bluetooth(1, &p).is_empty());
    assert!(th_input_source(1, &p, &none).is_empty());
    assert!(th_sensor_source(1, &vec![], &mut flag, &p, &none).is_empty());
    let cfg = audio(MediaCodec::AUDIO_PCM);
    assert!(th_media_sink_audio_guidance(1, true, &cfg, &mut flag, &p, &none).is_empty());
    let mut video = VideoTask::new(VideoStreamingParams::default());
    assert!(th_media_sink_video(1, true, &mut video, &p, &none).is_empty());
    let mut sound = AudioTask::new(AudioStreamingParams::default());
    assert!(th_media_sink_audio_streaming(1, true, &cfg, &mut sound, &p, &none).is_empty());
    assert_eq!(th_media_source(9, &p), vec![open(9)]);
    assert_eq!(th_vendor_extension(9, &p), vec![open(9)]);
    assert_eq!(th_bluetooth(9, &p), vec![open(9)]);
    assert_eq!(th_input_source(9, &p, &none), vec![open(9)]);
    assert_eq!(th_sensor_source(9, &vec![], &mut flag, &p, &none), vec![open(9)]);
}

#[test]
fn the_input_task_hands_reports_on() {
    let report = message(2, protos::INPUT_MESSAGE_INPUT_REPORT);
    assert_eq!(
        th_input_source(2, &report, &Incoming::Undecoded),
        vec![Action::ForwardInput]
    );
}

#[test]
fn the_video_task_steers_the_recorder() {
    let mut t = VideoTask::new(VideoStreamingParams::default());
    th_media_sink_video(3, true, &mut t, &message(3, protos::MEDIA_MESSAGE_CONFIG), &ready(5));
    assert_eq!(t.video_params.max_unack, 5);
    let report = message(3, protos::MEDIA_MESSAGE_VIDEO_FOCUS_NOTIFICATION);
    assert_eq!(
        th_media_sink_video(3, true, &mut t, &report, &focus(VideoFocusMode::Projected)),
        vec![start(3, 1), Action::RecordVideo { channel: 3, video: t.video_params }]
    );
    assert_eq!(
        th_media_sink_video(3, true, &mut t, &report, &focus(VideoFocusMode::Native)),
        vec![
            Action::Recorder { channel: 3, command: protos::CMD_PAUSE_VIDEO_RECORDING },
            send(3, Outgoing::Stop)
        ]
    );
    assert_eq!(
        th_media_sink_video(3, true, &mut t, &report, &focus(VideoFocusMode::Projected)),
        vec![
            Action::Recorder { channel: 3, command: protos::CMD_RESUME_VIDEO_RECORDING },
            start(3, 2)
        ]
    );
}

#[test]
fn focus_reports_alternate_start_and_stop() {
    let mut t = VideoTask::new(VideoStreamingParams::default());
    let report = message(3, protos::MEDIA_MESSAGE_VIDEO_FOCUS_NOTIFICATION);
    let mut sent = Vec::new();
    let mut recorder = Vec::new();
    for mode in [
        VideoFocusMode::Native,
        VideoFocusMode::Projected,
        VideoFocusMode::ProjectedNoInputFocus,
        VideoFocusMode::NativeTransient,
        VideoFocusMode::Native,
        VideoFocusMode::ProjectedNoInputFocus,
        VideoFocusMode::Native,
        VideoFocusMode::Projected,
    ] {
        for action in th_media_sink_video(3, true, &mut t, &report, &focus(mode)) {
            match action {
                Action::Send { .. } => sent.push(action),
                _ => recorder.push(action),
            }
        }
    }
    let stop = || send(3, Outgoing::Stop);
    assert_eq!(sent, vec![start(3, 1), stop(), start(3, 2), stop(), start(3, 3)]);
    let command = |command: u16| Action::Recorder { channel: 3, command };
    let pause = || command(protos::CMD_PAUSE_VIDEO_RECORDING);
    let resume = || command(protos::CMD_RESUME_VIDEO_RECORDING);
    let record = Action::RecordVideo { channel: 3, video: VideoStreamingParams::default() };
    assert_eq!(recorder, vec![record, pause(), resume(), pause(), resume()]);
}

#[test]
fn a_task_ends_with_its_queue() {
    let p = next_packet(Some(message(3, 5))).unwrap();
    assert_eq!((p.channel, p.payload), (3, vec![0, 5]));
    assert_eq!(next_packet(None).err(), Some(TaskEnd::HungUp));
}

#[test]
fn the_audio_task_steers_the_recorder() {
    let cfg = audio(MediaCodec::AUDIO_PCM);
    let mut t = AudioTask::new(AudioStreamingParams::default());
    let actions = th_media_sink_audio_streaming(
        4,
        true,
        &cfg,
        &mut t,
        &message(4, protos::MEDIA_MESSAGE_CONFIG),
        &ready(6),
    );
    assert_eq!(t.audio_params.max_unack, 6);
    assert_eq!(
        actions,
        vec![start(4, 2), Action::RecordAudio { channel: 4, audio: t.audio_params }]
    );
    let report = message(4, protos::MESSAGE_AUDIO_FOCUS_NOTIFICATION);
    assert_eq!(
        th_media_sink_audio_streaming(
            4,
            true,
            &cfg,
            &mut t,
            &report,
            &audio_focus(AudioFocusState::Loss)
        ),
        vec![
            send(4, Outgoing::Stop),
            Action::Recorder { channel: 4, command: protos::CMD_PAUSE_AUDIO_RECORDING }
        ]
    );
    assert_eq!(
        th_media_sink_audio_streaming(
            4,
            true,
            &cfg,
            &mut t,
            &report,
            &audio_focus(AudioFocusState::Gain)
        ),
        vec![
            start(4, 2),
            Action::Recorder { channel: 4, command: protos::CMD_RESUME_AUDIO_RECORDING }
        ]
    );
}

#[test]
fn the_first_screen_has_the_time_stamp_zero() {
    let (config, picture) = show_first_screen(3, &vec![1, 2], &vec![9]);
    assert_eq!(config.payload, vec![0, 1, 1, 2]);
    assert_eq!(picture.payload, vec![0, 0, 0, 0, 0, 0, 0, 0, 0, 0, 9]);
    assert_eq!((picture.channel, picture.flags), (3, 11));
}
