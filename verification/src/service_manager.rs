//! The control channel: it answers the head unit, learns which services there are,
//! and hands packets to them.
use vstd::prelude::*;

use crate::aa_services;
use crate::aa_services::{
    AAService, AudioChConfiguration, AudioConfig, AudioStream, AudioStreamingParams, MediaCodec,
    SensorType, ServiceType, SrvBluetooth, SrvMediaSource, SrvSensorSource, SrvVendorExtension,
    VideoCodecResolution, VideoFPS, VideoStreamingParams, ServerState,
};
use crate::channel_manager::{Packet, PacketView, ENCRYPTED_FULL, FRAME_TYPE_FULL};
use crate::config::AppConfig;
use crate::media_sinks::{
    SrvInputSource, SrvMediaSinkAudioGuidance, SrvMediaSinkAudioStreaming,
    SrvMediaSinkVideoStreaming,
};
use crate::messages;
use crate::messages::{
    AudioFocusState, Incoming, MediaSinkEntry, MessageStatus, Outgoing, ServiceEntry, VideoEntry,
};
use crate::protos;
use crate::scrcpy::ScrcpySize;
use crate::wire;

verus! {

/// A service that was found, ready to run.
#[derive(Debug)]
pub enum Service {
    AudioGuidance(SrvMediaSinkAudioGuidance),
    AudioStreaming(SrvMediaSinkAudioStreaming),
    Video(SrvMediaSinkVideoStreaming),
    MediaSource(SrvMediaSource),
    Sensor(SrvSensorSource),
    Input(SrvInputSource),
    VendorExtension(SrvVendorExtension),
    Bluetooth(SrvBluetooth),
}

/// A service with its lists as sequences.
#[verifier::ext_equal]
pub enum ServiceView {
    AudioGuidance(SrvMediaSinkAudioGuidance),
    AudioStreaming(SrvMediaSinkAudioStreaming),
    Video(SrvMediaSinkVideoStreaming),
    MediaSource(SrvMediaSource),
    Sensor { base: AAService, sensors: Seq<SensorType>, prev_nt_mode: bool },
    Input {
        base: AAService,
        keys: Seq<i32>,
        screen_size: ScrcpySize,
        cfg_screen_off: bool,
        scrcpy_server: ServerState,
    },
    VendorExtension(SrvVendorExtension),
    Bluetooth(SrvBluetooth),
}

impl View for Service {
    type V = ServiceView;

    open spec fn view(&self) -> ServiceView {
        match *self {
            Service::AudioGuidance(s) => ServiceView::AudioGuidance(s),
            Service::AudioStreaming(s) => ServiceView::AudioStreaming(s),
            Service::Video(s) => ServiceView::Video(s),
            Service::MediaSource(s) => ServiceView::MediaSource(s),
            Service::Sensor(s) => ServiceView::Sensor {
                base: s.base,
                sensors: s.sensors@,
                prev_nt_mode: s.prev_nt_mode,
            },
            Service::Input(s) => ServiceView::Input {
                base: s.base,
                keys: s.keys@,
                screen_size: s.screen_size,
                cfg_screen_off: s.cfg_screen_off,
                scrcpy_server: s.scrcpy_server,
            },
            Service::VendorExtension(s) => ServiceView::VendorExtension(s),
            Service::Bluetooth(s) => ServiceView::Bluetooth(s),
        }
    }
}

/// The services of a sequence, by their views.
pub open spec fn service_views(services: Seq<Service>) -> Seq<ServiceView> {
    services.map_values(|s: Service| s@)
}

impl ServiceView {
    pub open spec fn base(self) -> AAService {
        match self {
            ServiceView::AudioGuidance(s) => s.base,
            ServiceView::AudioStreaming(s) => s.base,
            ServiceView::Video(s) => s.base,
            ServiceView::MediaSource(s) => s.base,
            ServiceView::Sensor { base, .. } => base,
            ServiceView::Input { base, .. } => base,
            ServiceView::VendorExtension(s) => s.base,
            ServiceView::Bluetooth(s) => s.base,
        }
    }
}

impl Service {
    pub fn base(&self) -> (r: AAService)
        ensures
            r == self@.base(),
    {
        match self {
            Service::AudioGuidance(s) => s.base,
            Service::AudioStreaming(s) => s.base,
            Service::Video(s) => s.base,
            Service::MediaSource(s) => s.base,
            Service::Sensor(s) => s.base,
            Service::Input(s) => s.base,
            Service::VendorExtension(s) => s.base,
            Service::Bluetooth(s) => s.base,
        }
    }
}

/// What the manager asks for.
#[derive(Clone, Copy, Debug, PartialEq, Eq, Structural)]
pub enum ManagerAction {
    /// Send the message to the head unit.
    Send { channel: u8, flags: u8, message: Outgoing },
    /// Answer the version request with the version that it named.
    VersionResponse { major: u16, minor: u16 },
    /// Give the head unit the time that it takes to configure itself.
    HuConfigDelay,
    /// Put the command on the queue of the service.
    Command { sid: u8, command: u16 },
    /// Put the packet on the queue of the service, as one of the service's channel.
    Forward { sid: u8 },
    /// Let the screen copy server on the mobile device be started.
    StartAdbServer,
    Delay { millis: u64 },
    /// End the session.
    Cancel,
}

/// The recording servers that have to be ready before any of them is started.
#[derive(Clone, Copy, Debug, PartialEq, Eq, Structural)]
pub enum RecordingServer {
    Audio,
    Video,
    Control,
}

/// What the manager has learned about the head unit.
#[derive(Debug)]
pub struct ServiceManager {
    pub config: AppConfig,
    pub ch_opened: bool,
    pub sdr_services: Vec<Option<AAService>>,
    pub sdr_sensors: Vec<SensorType>,
    pub sdr_keys: Vec<i32>,
    pub sdr_audio_cfg_guidance: AudioConfig,
    pub sdr_audio_cfg_streaming: AudioConfig,
    pub sdr_video_codec_params: VideoStreamingParams,
    pub sdr_audio_codec_params: AudioStreamingParams,
    pub sdr_control_server_sid: u8,
    pub audio_srv_ready: bool,
    pub video_srv_ready: bool,
    pub control_srv_ready: bool,
}

/// A manager with its lists as sequences.
#[verifier::ext_equal]
pub struct ManagerView {
    pub config: AppConfig,
    pub ch_opened: bool,
    pub services: Seq<Option<AAService>>,
    pub sensors: Seq<SensorType>,
    pub keys: Seq<i32>,
    pub audio_cfg_guidance: AudioConfig,
    pub audio_cfg_streaming: AudioConfig,
    pub video_params: VideoStreamingParams,
    pub audio_params: AudioStreamingParams,
    pub control_sid: u8,
    pub audio_ready: bool,
    pub video_ready: bool,
    pub control_ready: bool,
}

impl View for ServiceManager {
    type V = ManagerView;

    open spec fn view(&self) -> ManagerView {
        ManagerView {
            config: self.config,
            ch_opened: self.ch_opened,
            services: self.sdr_services@,
            sensors: self.sdr_sensors@,
            keys: self.sdr_keys@,
            audio_cfg_guidance: self.sdr_audio_cfg_guidance,
            audio_cfg_streaming: self.sdr_audio_cfg_streaming,
            video_params: self.sdr_video_codec_params,
            audio_params: self.sdr_audio_codec_params,
            control_sid: self.sdr_control_server_sid,
            audio_ready: self.audio_srv_ready,
            video_ready: self.video_srv_ready,
            control_ready: self.control_srv_ready,
        }
    }
}

/// The table of services with one more: it stands at the place that its number names,
/// in place of what stood there.
pub open spec fn with_service(services: Seq<Option<AAService>>, service: AAService) -> Seq<
    Option<AAService>,
> {
    let sid = service.sid as int;
    Seq::new(
        if services.len() <= sid {
            (sid + 1) as nat
        } else {
            services.len()
        },
        |i: int|
            if i == sid {
                Some(service)
            } else if i < services.len() {
                services[i]
            } else {
                None
            },
    )
}

/// Whether the table holds a service of that number.
pub open spec fn has_service(services: Seq<Option<AAService>>, sid: u8) -> bool {
    sid < services.len() && services[sid as int] is Some
}

/// The command for every service of the table, in the order of the table.
pub open spec fn command_all(services: Seq<Option<AAService>>, command: u16) -> Seq<ManagerAction>
    decreases services.len(),
{
    if services.len() == 0 {
        seq![]
    } else {
        let before = command_all(services.drop_last(), command);
        match services.last() {
            Some(s) => before.push(ManagerAction::Command { sid: s.sid as u8, command }),
            None => before,
        }
    }
}

/// The codec of an audio sink; PCM stands for every codec that is not for sound.
pub open spec fn audio_codec(available: MediaCodec) -> MediaCodec {
    match available {
        MediaCodec::AUDIO_AAC_LC_ADTS => MediaCodec::AUDIO_AAC_LC_ADTS,
        MediaCodec::AUDIO_AAC_LC => MediaCodec::AUDIO_AAC_LC,
        _ => MediaCodec::AUDIO_PCM,
    }
}

/// The audio format of a sink, by the first of its configurations.
pub open spec fn audio_config(sink: MediaSinkEntry, stream_type: AudioStream) -> AudioConfig {
    AudioConfig {
        codec: audio_codec(sink.available_type),
        stream_type,
        bitrate: sink.audio_configs@[0].sampling_rate,
        channels: sink.audio_configs@[0].number_of_channels,
        bitdepth: sink.audio_configs@[0].number_of_bits,
    }
}

/// Bitrate, width and height to record with for a resolution of the head unit.
pub open spec fn recording_size(resolution: VideoCodecResolution) -> (i32, i32, i32) {
    match resolution {
        VideoCodecResolution::Video_720x1280 => (8_000_000, 1280, 720),
        VideoCodecResolution::Video_1080x1920 => (16_000_000, 1920, 1080),
        _ => (4_000_000, 800, 480),
    }
}

/// The video parameters for the first picture format of a sink.
pub open spec fn recording_params(
    config: AppConfig,
    old_params: VideoStreamingParams,
    entry: VideoEntry,
    id: i32,
) -> VideoStreamingParams {
    let (bitrate, res_w, res_h) = recording_size(entry.codec_resolution);
    VideoStreamingParams {
        bitrate: if config.video_bitrate > 0 {
            config.video_bitrate
        } else {
            bitrate
        },
        res_w,
        res_h,
        fps: match entry.frame_rate {
            VideoFPS::FPS_60 => 60,
            VideoFPS::FPS_30 => 30,
        },
        dpi: entry.density as i32,
        sid: id as u8,
        max_unack: old_params.max_unack,
    }
}

/// The sensors among the numbers, in their order; numbers of no sensor are left out.
pub open spec fn known_sensors(numbers: Seq<i32>) -> Seq<SensorType>
    decreases numbers.len(),
{
    if numbers.len() == 0 {
        seq![]
    } else {
        let before = known_sensors(numbers.drop_last());
        if 1 <= numbers.last() <= 24 {
            before.push(
                choose|s: SensorType| #[trigger] aa_services::sensor_number(s) == numbers.last(),
            )
        } else {
            before
        }
    }
}

impl ManagerView {
    /// Every service stands at the place that its number names.
    pub open spec fn well_formed(self) -> bool {
        forall|i: int|
            0 <= i < self.services.len() ==> (#[trigger] self.services[i] matches Some(s) ==> s.sid
                == i)
    }

    /// A manager that knows nothing yet.
    pub open spec fn fresh(config: AppConfig) -> ManagerView {
        ManagerView {
            config,
            ch_opened: false,
            services: seq![],
            sensors: seq![],
            keys: seq![],
            audio_cfg_guidance: aa_services::default_audio_config(),
            audio_cfg_streaming: aa_services::default_audio_config(),
            video_params: aa_services::default_video_params(),
            audio_params: aa_services::default_audio_params(),
            control_sid: 0,
            audio_ready: false,
            video_ready: false,
            control_ready: false,
        }
    }

    /// The service that an entry of the head unit's answer leads to, where it does.
    #[verifier::opaque]
    pub open spec fn service_for(self, e: ServiceEntry) -> Option<ServiceView> {
        let sid = e.id as i8;
        let learned = self.learned(e);
        match e.media_sink {
            Some(sink) => if sink.audio_configs@.len() > 0 {
                if sink.audio_type == AudioStream::GUIDANCE {
                    Some(
                        ServiceView::AudioGuidance(
                            SrvMediaSinkAudioGuidance {
                                base: AAService { sid, srv_type: ServiceType::SensorSource },
                                acfg: learned.audio_cfg_guidance,
                                enabled: false,
                                audio_streaming_started: false,
                            },
                        ),
                    )
                } else if sink.audio_type == AudioStream::MEDIA {
                    Some(
                        ServiceView::AudioStreaming(
                            SrvMediaSinkAudioStreaming::fresh(
                                sid,
                                learned.audio_cfg_streaming,
                                learned.audio_params,
                                self.config.ignore_media_ack,
                                true,
                            ),
                        ),
                    )
                } else {
                    None
                }
            } else if sink.video_configs@.len() > 0 {
                Some(
                    ServiceView::Video(
                        SrvMediaSinkVideoStreaming::fresh(
                            sid,
                            learned.video_params,
                            self.config.ignore_media_ack,
                            true,
                        ),
                    ),
                )
            } else {
                None
            },
            None => if e.media_source {
                Some(
                    ServiceView::MediaSource(
                        SrvMediaSource {
                            base: AAService { sid, srv_type: ServiceType::MediaSource },
                        },
                    ),
                )
            } else if e.sensor_source is Some {
                Some(
                    ServiceView::Sensor {
                        base: AAService { sid, srv_type: ServiceType::SensorSource },
                        sensors: learned.sensors,
                        prev_nt_mode: false,
                    },
                )
            } else if e.input_source is Some {
                Some(
                    ServiceView::Input {
                        base: AAService { sid, srv_type: ServiceType::InputSource },
                        keys: learned.keys,
                        screen_size: ScrcpySize {
                            width: self.video_params.res_w as u16,
                            height: self.video_params.res_h as u16,
                        },
                        cfg_screen_off: self.config.scrcpy_screen_off,
                        scrcpy_server: ServerState::Created,
                    },
                )
            } else if e.vendor_extension {
                Some(
                    ServiceView::VendorExtension(
                        SrvVendorExtension {
                            base: AAService { sid, srv_type: ServiceType::VendorExtension },
                        },
                    ),
                )
            } else if e.bluetooth {
                Some(
                    ServiceView::Bluetooth(
                        SrvBluetooth {
                            base: AAService { sid, srv_type: ServiceType::Bluetooth },
                        },
                    ),
                )
            } else {
                None
            },
        }
    }

    /// The manager after it has read the parameters of an entry.
    pub open spec fn learned(self, e: ServiceEntry) -> ManagerView {
        match e.media_sink {
            Some(sink) => if sink.audio_configs@.len() > 0 {
                if sink.audio_type == AudioStream::GUIDANCE {
                    ManagerView {
                        audio_cfg_guidance: audio_config(sink, AudioStream::GUIDANCE),
                        ..self
                    }
                } else if sink.audio_type == AudioStream::MEDIA {
                    let cfg = audio_config(sink, AudioStream::MEDIA);
                    ManagerView {
                        audio_cfg_streaming: cfg,
                        audio_params: AudioStreamingParams {
                            codec: cfg.codec,
                            bitrate: cfg.bitrate as i32,
                            sid: e.id as u8,
                            max_unack: self.audio_params.max_unack,
                        },
                        ..self
                    }
                } else {
                    self
                }
            } else if sink.video_configs@.len() > 0 {
                ManagerView {
                    video_params: recording_params(
                        self.config,
                        self.video_params,
                        sink.video_configs@[0],
                        e.id,
                    ),
                    ..self
                }
            } else {
                self
            },
            None => if e.media_source {
                self
            } else {
                match e.sensor_source {
                    Some(numbers) => ManagerView {
                        sensors: self.sensors + known_sensors(numbers@),
                        ..self
                    },
                    None => match e.input_source {
                        Some(keys) => ManagerView { keys: keys@, control_sid: e.id as u8, ..self },
                        None => self,
                    },
                }
            },
        }
    }

    /// The manager after an entry of the head unit's answer.
    #[verifier::opaque]
    pub open spec fn adopted(self, e: ServiceEntry) -> ManagerView {
        match self.service_for(e) {
            Some(service) => ManagerView {
                services: with_service(self.services, service.base()),
                ..self.learned(e)
            },
            None => self.learned(e),
        }
    }

    /// The manager after the first `n` entries.
    pub open spec fn adopted_all(self, entries: Seq<ServiceEntry>, n: int) -> ManagerView
        decreases n,
    {
        if n <= 0 {
            self
        } else {
            self.adopted_all(entries, n - 1).adopted(entries[n - 1])
        }
    }

    /// The services that the first `n` entries lead to.
    pub open spec fn services_for(self, entries: Seq<ServiceEntry>, n: int) -> Seq<ServiceView>
        decreases n,
    {
        if n <= 0 {
            seq![]
        } else {
            let before = self.services_for(entries, n - 1);
            match self.adopted_all(entries, n - 1).service_for(entries[n - 1]) {
                Some(service) => before.push(service),
                None => before,
            }
        }
    }
}

/// Whether an entry of the head unit's answer leads to a service.
pub open spec fn leads_to_service(e: ServiceEntry) -> bool {
    match e.media_sink {
        Some(sink) => if sink.audio_configs@.len() > 0 {
            sink.audio_type == AudioStream::GUIDANCE || sink.audio_type == AudioStream::MEDIA
        } else {
            sink.video_configs@.len() > 0
        },
        None => e.media_source || e.sensor_source is Some || e.input_source is Some
            || e.vendor_extension || e.bluetooth,
    }
}

proof fn lemma_leads_to_service(m: ManagerView, e: ServiceEntry)
    ensures
        m.service_for(e) is Some <==> leads_to_service(e),
{
    reveal(ManagerView::service_for);
}

/// Whether the entry's number can name a service: it must not be negative in eight
/// bits where the entry leads to a service.
pub open spec fn adoptable(e: ServiceEntry) -> bool {
    leads_to_service(e) ==> e.id as i8 >= 0
}

/// The entries of the head unit's answer to service discovery.
pub open spec fn discovered(msg: Incoming) -> Seq<ServiceEntry> {
    match msg {
        Incoming::ServiceDiscoveryResponse { services } => services@,
        _ => seq![],
    }
}

/// The audio focus that lets the channels be opened.
pub open spec fn opens_channels(state: AudioFocusState) -> bool {
    state == AudioFocusState::Gain || state == AudioFocusState::GainTransient
}

impl ManagerView {
    /// Whether the manager can deal with the packet. The head unit must have accepted
    /// the authentication and its list of services must be readable.
    pub open spec fn accepts(self, pkt: PacketView, msg: Incoming) -> bool {
        pkt.channel == 0 ==> {
            &&& pkt.payload.len() >= 2
            &&& pkt.message_id() == protos::MESSAGE_VERSION_REQUEST ==> pkt.payload.len() >= 6
            &&& pkt.message_id() == protos::MESSAGE_AUTH_COMPLETE ==> msg == (
            Incoming::AuthResponse { status: MessageStatus::Success })
            &&& pkt.message_id() == protos::MESSAGE_SERVICE_DISCOVERY_RESPONSE ==> {
                &&& msg is ServiceDiscoveryResponse
                &&& forall|i: int|
                    0 <= i < discovered(msg).len() ==> adoptable(#[trigger] discovered(msg)[i])
            }
        }
    }

    /// The manager after a packet.
    pub open spec fn after(self, pkt: PacketView, msg: Incoming) -> ManagerView {
        if pkt.channel != 0 {
            self
        } else if pkt.message_id() == protos::MESSAGE_SERVICE_DISCOVERY_RESPONSE {
            self.adopted_all(discovered(msg), discovered(msg).len() as int)
        } else if pkt.message_id() == protos::MESSAGE_AUDIO_FOCUS_NOTIFICATION {
            match msg {
                Incoming::AudioFocusNotification { focus_state } => ManagerView {
                    ch_opened: self.ch_opened || opens_channels(focus_state),
                    ..self
                },
                _ => self,
            }
        } else {
            self
        }
    }

    /// The services that a packet lets start.
    pub open spec fn new_services(self, pkt: PacketView, msg: Incoming) -> Seq<ServiceView> {
        if pkt.channel == 0 && pkt.message_id() == protos::MESSAGE_SERVICE_DISCOVERY_RESPONSE {
            self.services_for(discovered(msg), discovered(msg).len() as int)
        } else {
            seq![]
        }
    }

    /// What the manager does at a packet.
    pub open spec fn actions(self, pkt: PacketView, msg: Incoming) -> Seq<ManagerAction> {
        if pkt.channel != 0 {
            if has_service(self.services, pkt.channel) {
                seq![ManagerAction::Forward { sid: pkt.channel }]
            } else {
                seq![]
            }
        } else if pkt.message_id() == protos::MESSAGE_VERSION_REQUEST {
            seq![
                ManagerAction::VersionResponse {
                    major: wire::be16_at(pkt.payload, 2),
                    minor: wire::be16_at(pkt.payload, 4),
                },
            ]
        } else if pkt.message_id() == protos::MESSAGE_AUTH_COMPLETE {
            seq![control_message(Outgoing::ServiceDiscoveryRequest)]
        } else if pkt.message_id() == protos::MESSAGE_SERVICE_DISCOVERY_RESPONSE {
            seq![control_message(Outgoing::AudioFocusRequest)]
        } else if pkt.message_id() == protos::MESSAGE_PING_REQUEST {
            match msg {
                Incoming::PingRequest { timestamp } => seq![
                    control_message(Outgoing::PingResponse { timestamp }),
                ],
                _ => seq![],
            }
        } else if pkt.message_id() == protos::MESSAGE_AUDIO_FOCUS_NOTIFICATION {
            match msg {
                Incoming::AudioFocusNotification { focus_state } => if self.ch_opened {
                    if has_service(self.services, self.audio_params.sid) {
                        seq![ManagerAction::Forward { sid: self.audio_params.sid }]
                    } else {
                        seq![]
                    }
                } else if opens_channels(focus_state) {
                    seq![ManagerAction::HuConfigDelay] + command_all(
                        self.services,
                        protos::CMD_OPEN_CH,
                    )
                } else {
                    seq![]
                },
                _ => seq![],
            }
        } else {
            seq![]
        }
    }

    /// Hands a command to a service, or ends the session where there is no such service.
    pub open spec fn command_or_cancel(self, sid: u8, command: u16) -> ManagerAction {
        if sid > 0 && has_service(self.services, sid) {
            ManagerAction::Command { sid, command }
        } else {
            ManagerAction::Cancel
        }
    }

    /// How the recording servers are started, one after the other.
    pub open spec fn start_actions(self) -> Seq<ManagerAction> {
        seq![
            ManagerAction::StartAdbServer,
            ManagerAction::Delay { millis: 500 },
            self.command_or_cancel(self.video_params.sid, protos::CMD_START_VIDEO_RECORDING),
            ManagerAction::Delay { millis: 100 },
            self.command_or_cancel(self.audio_params.sid, protos::CMD_START_AUDIO_RECORDING),
            ManagerAction::Delay { millis: 100 },
            self.command_or_cancel(self.control_sid, protos::CMD_START_CONTROL_SERVER),
        ]
    }

    /// What follows when a recording server is ready: all of them are started with the last.
    pub open spec fn ready_actions(self, server: RecordingServer) -> Seq<ManagerAction> {
        if self.with_ready(server).all_ready() {
            self.start_actions()
        } else {
            seq![]
        }
    }

    /// Whether all recording servers are ready.
    pub open spec fn all_ready(self) -> bool {
        self.audio_ready && self.video_ready && self.control_ready
    }

    /// The manager after a recording server has reported that it is ready.
    pub open spec fn with_ready(self, server: RecordingServer) -> ManagerView {
        match server {
            RecordingServer::Audio => ManagerView { audio_ready: true, ..self },
            RecordingServer::Video => ManagerView { video_ready: true, ..self },
            RecordingServer::Control => ManagerView { control_ready: true, ..self },
        }
    }
}

/// A copy of the vector.
fn copy_vec<T: Copy>(v: &Vec<T>) -> (r: Vec<T>)
    ensures
        r@ == v@,
{
    let mut r: Vec<T> = Vec::new();
    let mut i: usize = 0;
    while i < v.len()
        invariant
            i <= v@.len(),
            r@ == v@.take(i as int),
        decreases v@.len() - i,
    {
        r.push(v[i]);
        assert(r@ =~= v@.take(i + 1));
        i = i + 1;
    }
    assert(v@.take(i as int) =~= v@);
    r
}

fn is_present(services: &Vec<Option<AAService>>, sid: u8) -> (b: bool)
    ensures
        b == has_service(services@, sid),
{
    (sid as usize) < services.len() && services[sid as usize].is_some()
}

fn make_audio_config(sink: &MediaSinkEntry, stream_type: AudioStream) -> (r: AudioConfig)
    requires
        sink.audio_configs@.len() > 0,
    ensures
        r == audio_config(*sink, stream_type),
{
    let first: AudioChConfiguration = sink.audio_configs[0];
    let codec = match sink.available_type {
        MediaCodec::AUDIO_AAC_LC_ADTS => MediaCodec::AUDIO_AAC_LC_ADTS,
        MediaCodec::AUDIO_AAC_LC => MediaCodec::AUDIO_AAC_LC,
        _ => MediaCodec::AUDIO_PCM,
    };
    AudioConfig {
        codec,
        stream_type,
        bitrate: first.sampling_rate,
        channels: first.number_of_channels,
        bitdepth: first.number_of_bits,
    }
}

fn make_recording_params(
    config: &AppConfig,
    old_params: &VideoStreamingParams,
    entry: &VideoEntry,
    id: i32,
) -> (r: VideoStreamingParams)
    ensures
        r == recording_params(*config, *old_params, *entry, id),
{
    let size: (i32, i32, i32) = match entry.codec_resolution {
        VideoCodecResolution::Video_720x1280 => (8_000_000, 1280, 720),
        VideoCodecResolution::Video_1080x1920 => (16_000_000, 1920, 1080),
        _ => (4_000_000, 800, 480),
    };
    let fps: i32 = match entry.frame_rate {
        VideoFPS::FPS_60 => 60,
        VideoFPS::FPS_30 => 30,
    };
    VideoStreamingParams {
        // the configuration overrides the usual bitrate
        bitrate: if config.video_bitrate > 0 {
            config.video_bitrate
        } else {
            size.0
        },
        res_w: size.1,
        res_h: size.2,
        fps,
        dpi: entry.density as i32,
        sid: id as u8,
        max_unack: old_params.max_unack,
    }
}

/// The number of a service is that of its entry, in eight bits.
pub proof fn law_service_keeps_number(m: ManagerView, e: ServiceEntry)
    ensures
        m.service_for(e) matches Some(service) ==> service.base().sid == e.id as i8,
{
    reveal(ManagerView::service_for);
}

/// What an entry does to the table of services.
proof fn lemma_adopted_services(m: ManagerView, e: ServiceEntry)
    ensures
        m.adopted(e).services == match m.service_for(e) {
            Some(service) => with_service(m.services, service.base()),
            None => m.services,
        },
{
    reveal(ManagerView::adopted);
}

/// Every service of the list starts as one of the table.
pub proof fn law_services_are_listed(m: ManagerView, entries: Seq<ServiceEntry>, n: int)
    requires
        0 <= n <= entries.len(),
        m.well_formed(),
        forall|i: int|
            0 <= i < n ==> adoptable(#[trigger] entries[i]),
    ensures
        m.adopted_all(entries, n).well_formed(),
        forall|k: int|
            0 <= k < m.services_for(entries, n).len() ==> has_service(
                m.adopted_all(entries, n).services,
                (#[trigger] m.services_for(entries, n)[k]).base().sid as u8,
            ),
        forall|sid: u8|
            has_service(m.services, sid) ==> #[trigger] has_service(
                m.adopted_all(entries, n).services,
                sid,
            ),
    decreases n,
{
    if n > 0 {
        law_services_are_listed(m, entries, n - 1);
        let before = m.adopted_all(entries, n - 1);
        let after = m.adopted_all(entries, n);
        assert(adoptable(entries[n - 1]));
        lemma_leads_to_service(before, entries[n - 1]);
        lemma_adopted_services(before, entries[n - 1]);
        law_service_keeps_number(before, entries[n - 1]);
        assert forall|sid: u8| has_service(before.services, sid) implies #[trigger] has_service(
            after.services,
            sid,
        ) by {}
        assert forall|k: int| 0 <= k < m.services_for(entries, n).len() implies has_service(
            after.services,
            (#[trigger] m.services_for(entries, n)[k]).base().sid as u8,
        ) by {
            if k < m.services_for(entries, n - 1).len() {
                assert(m.services_for(entries, n)[k] == m.services_for(entries, n - 1)[k]);
                assert(has_service(before.services, m.services_for(entries, n - 1)[k].base().sid as u8));
            } else {
                let service = before.service_for(entries[n - 1])->0;
                assert(m.services_for(entries, n)[k] == service);
                assert(service.base().sid == entries[n - 1].id as i8);
            }
        }
    }
}

/// A packet for a service goes to the queue of the service of that number, and a
/// command on opening the channels names every service once, in the order of their
/// numbers.
pub proof fn law_commands_name_services(m: ManagerView, command: u16)
    requires
        m.well_formed(),
    ensures
        forall|k: int|
            0 <= k < command_all(m.services, command).len() ==> (#[trigger] command_all(
                m.services,
                command,
            )[k] matches ManagerAction::Command { sid, command: c } && c == command && has_service(
                m.services,
                sid,
            )),
        forall|j: int, k: int|
            0 <= j < k < command_all(m.services, command).len() ==> (#[trigger] command_all(
                m.services,
                command,
            )[j])->Command_sid < (#[trigger] command_all(m.services, command)[k])->Command_sid,
        forall|sid: u8|
            has_service(m.services, sid) ==> #[trigger] command_all(m.services, command).contains(
                ManagerAction::Command { sid, command },
            ),
    decreases m.services.len(),
{
    if m.services.len() > 0 {
        let last = m.services.len() - 1;
        let shorter = ManagerView { services: m.services.drop_last(), ..m };
        assert forall|i: int| 0 <= i < shorter.services.len() implies (
        #[trigger] shorter.services[i] matches Some(s) ==> s.sid == i) by {
            assert(shorter.services[i] == m.services[i]);
        }
        law_commands_name_services(shorter, command);
        let before = command_all(shorter.services, command);
        let all = command_all(m.services, command);
        assert(m.services[last] matches Some(s) ==> s.sid == last);
        assert forall|k: int| 0 <= k < all.len() implies (
        #[trigger] all[k] matches ManagerAction::Command { sid, command: c } && c == command
            && has_service(m.services, sid)) by {
            if k < before.len() {
                assert(all[k] == before[k]);
            }
        }
        assert forall|j: int, k: int| 0 <= j < k < all.len() implies (#[trigger] all[j])->Command_sid < (
        #[trigger] all[k])->Command_sid by {
            assert(all[j] == before[j]);
            if k < before.len() {
                assert(all[k] == before[k]);
            }
        }
        assert forall|sid: u8| has_service(m.services, sid) implies #[trigger] all.contains(
            ManagerAction::Command { sid, command },
        ) by {
            if sid < last {
                assert(has_service(shorter.services, sid));
                assert(before.contains(ManagerAction::Command { sid, command }));
                let k = choose|k: int|
                    0 <= k < before.len() && before[k] == (ManagerAction::Command { sid, command });
                assert(all[k] == before[k]);
            } else {
                assert(all[all.len() - 1] == (ManagerAction::Command { sid, command }));
            }
        }
    }
}

/// The recording servers are started when the last of the three reports, whatever
/// the order in which they do.
pub proof fn law_servers_start_when_all_are_ready(
    m: ManagerView,
    a: RecordingServer,
    b: RecordingServer,
    c: RecordingServer,
)
    requires
        !m.audio_ready && !m.video_ready && !m.control_ready,
        a != b && b != c && a != c,
    ensures
        !m.with_ready(a).all_ready(),
        !m.with_ready(a).with_ready(b).all_ready(),
        m.with_ready(a).with_ready(b).with_ready(c).all_ready(),
{
}

impl ServiceManager {
    pub fn new(config: AppConfig) -> (r: Self)
        ensures
            r@ == ManagerView::fresh(config),
            r@.well_formed(),
    {
        let r = ServiceManager {
            config,
            ch_opened: false,
            sdr_services: Vec::new(),
            sdr_sensors: Vec::new(),
            sdr_keys: Vec::new(),
            sdr_audio_cfg_guidance: AudioConfig::default(),
            sdr_audio_cfg_streaming: AudioConfig::default(),
            sdr_video_codec_params: VideoStreamingParams::default(),
            sdr_audio_codec_params: AudioStreamingParams::default(),
            sdr_control_server_sid: 0,
            audio_srv_ready: false,
            video_srv_ready: false,
            control_srv_ready: false,
        };
        assert(r@ =~= ManagerView::fresh(config));
        r
    }

    /// Puts the service into the table, at the place that its number names.
    pub fn add_service(&mut self, service: AAService)
        requires
            service.sid >= 0,
        ensures
            final(self)@ == (ManagerView {
                services: with_service(old(self)@.services, service),
                ..old(self)@
            }),
            old(self)@.well_formed() ==> final(self)@.well_formed(),
    {
        let sid: usize = service.sid as usize;
        let ghost before = self.sdr_services@;
        let ghost start = self@;
        while self.sdr_services.len() <= sid
            invariant
                before.len() <= self.sdr_services@.len(),
                before.len() <= sid ==> self.sdr_services@.len() <= sid + 1,
                before.len() > sid ==> self.sdr_services@.len() == before.len(),
                forall|i: int| 0 <= i < before.len() ==> self.sdr_services@[i] == before[i],
                forall|i: int|
                    before.len() <= i < self.sdr_services@.len() ==> self.sdr_services@[i] is None,
                self@ == (ManagerView { services: self.sdr_services@, ..start }),
            decreases sid + 1 - self.sdr_services@.len(),
        {
            self.sdr_services.push(None);
        }
        self.sdr_services.set(sid, Some(service));
        assert(self.sdr_services@ =~= with_service(before, service));
        assert(self@ =~= (ManagerView { services: with_service(before, service), ..start }));
    }

    /// Appends the sensors that have one of the numbers.
    fn add_sensors(&mut self, numbers: &Vec<i32>)
        ensures
            final(self)@ == (ManagerView {
                sensors: old(self)@.sensors + known_sensors(numbers@),
                ..old(self)@
            }),
    {
        let ghost start = self@;
        let mut i: usize = 0;
        assert(start.sensors + known_sensors(numbers@.take(0)) =~= start.sensors);
        while i < numbers.len()
            invariant
                i <= numbers@.len(),
                self@ == (ManagerView {
                    sensors: start.sensors + known_sensors(numbers@.take(i as int)),
                    ..start
                }),
            decreases numbers@.len() - i,
        {
            assert(numbers@.take(i + 1).drop_last() =~= numbers@.take(i as int));
            let n: i32 = numbers[i];
            if let Some(sensor) = SensorType::from_number(n) {
                proof {
                    let picked = choose|s: SensorType|
                        #[trigger] aa_services::sensor_number(s) == n;
                    assert(aa_services::sensor_number(sensor) == n);
                    aa_services::law_sensor_numbers_differ(picked, sensor);
                }
                self.sdr_sensors.push(sensor);
            }
            i = i + 1;
            assert(self@.sensors =~= start.sensors + known_sensors(numbers@.take(i as int)));
            assert(self@ =~= (ManagerView {
                sensors: start.sensors + known_sensors(numbers@.take(i as int)),
                ..start
            }));
        }
        assert(numbers@.take(i as int) =~= numbers@);
    }

    /// Reads one entry of the head unit's answer: keeps its parameters, and makes the
    /// service that it leads to.
    fn adopt(&mut self, e: &ServiceEntry) -> (r: Option<Service>)
        requires
            adoptable(*e),
        ensures
            final(self)@ == old(self)@.adopted(*e),
            r is Some <==> old(self)@.service_for(*e) is Some,
            r matches Some(s) ==> Some(s@) == old(self)@.service_for(*e),
            old(self)@.well_formed() ==> final(self)@.well_formed(),
    {
        proof {
            reveal(ManagerView::service_for);
            reveal(ManagerView::adopted);
        }
        let sid: i8 = e.id as i8;
        let ghost start = self@;
        let mut found: Option<Service> = None;
        if let Some(sink) = &e.media_sink {
            if sink.audio_configs.len() > 0 {
                if sink.audio_type == AudioStream::GUIDANCE {
                    self.sdr_audio_cfg_guidance = make_audio_config(sink, AudioStream::GUIDANCE);
                    found = Some(
                        Service::AudioGuidance(
                            SrvMediaSinkAudioGuidance::new(sid, self.sdr_audio_cfg_guidance, false),
                        ),
                    );
                } else if sink.audio_type == AudioStream::MEDIA {
                    let cfg = make_audio_config(sink, AudioStream::MEDIA);
                    self.sdr_audio_cfg_streaming = cfg;
                    self.sdr_audio_codec_params.bitrate = cfg.bitrate as i32;
                    self.sdr_audio_codec_params.sid = e.id as u8;
                    self.sdr_audio_codec_params.codec = cfg.codec;
                    found = Some(
                        Service::AudioStreaming(
                            SrvMediaSinkAudioStreaming::new(
                                sid,
                                cfg,
                                self.sdr_audio_codec_params,
                                self.config.ignore_media_ack,
                                true,
                            ),
                        ),
                    );
                }
            } else if sink.video_configs.len() > 0 {
                self.sdr_video_codec_params = make_recording_params(
                    &self.config,
                    &self.sdr_video_codec_params,
                    &sink.video_configs[0],
                    e.id,
                );
                found = Some(
                    Service::Video(
                        SrvMediaSinkVideoStreaming::new(
                            sid,
                            self.sdr_video_codec_params,
                            self.config.ignore_media_ack,
                            true,
                        ),
                    ),
                );
            }
        } else if e.media_source {
            found = Some(Service::MediaSource(SrvMediaSource::new(sid)));
        } else if let Some(numbers) = &e.sensor_source {
            self.add_sensors(numbers);
            found = Some(
                Service::Sensor(SrvSensorSource::new(sid, copy_vec(&self.sdr_sensors))),
            );
        } else if let Some(keys) = &e.input_source {
            let screen_size = ScrcpySize {
                width: self.sdr_video_codec_params.res_w as u16,
                height: self.sdr_video_codec_params.res_h as u16,
            };
            self.sdr_keys = copy_vec(keys);
            self.sdr_control_server_sid = e.id as u8;
            found = Some(
                Service::Input(
                    SrvInputSource::new(
                        sid,
                        copy_vec(&self.sdr_keys),
                        screen_size,
                        self.config.scrcpy_screen_off,
                    ),
                ),
            );
        } else if e.vendor_extension {
            found = Some(Service::VendorExtension(SrvVendorExtension::new(sid)));
        } else if e.bluetooth {
            found = Some(Service::Bluetooth(SrvBluetooth::new(sid)));
        }
        assert(self@ =~= start.learned(*e));
        if let Some(service) = &found {
            assert(Some(service@) == start.service_for(*e));
            self.add_service(service.base());
            assert(self@ =~= start.adopted(*e));
        }
        found
    }

    /// Reads the list of services that the head unit offers.
    fn adopt_all(&mut self, entries: &Vec<ServiceEntry>) -> (r: Vec<Service>)
        requires
            forall|i: int|
                0 <= i < entries@.len() ==> adoptable(#[trigger] entries@[i]),
        ensures
            final(self)@ == old(self)@.adopted_all(entries@, entries@.len() as int),
            service_views(r@) == old(self)@.services_for(entries@, entries@.len() as int),
            old(self)@.well_formed() ==> final(self)@.well_formed(),
    {
        let ghost start = self@;
        let mut r: Vec<Service> = Vec::new();
        let mut i: usize = 0;
        assert(service_views(r@) =~= start.services_for(entries@, 0));
        while i < entries.len()
            invariant
                i <= entries@.len(),
                self@ == start.adopted_all(entries@, i as int),
                service_views(r@) == start.services_for(entries@, i as int),
                start.well_formed() ==> self@.well_formed(),
                forall|j: int|
                    0 <= j < entries@.len() ==> adoptable(#[trigger] entries@[j]),
            decreases entries@.len() - i,
        {
            assert(adoptable(entries@[i as int]));
            let ghost before = r@;
            if let Some(service) = self.adopt(&entries[i]) {
                r.push(service);
                assert(service_views(r@) =~= service_views(before).push(service@));
            }
            i = i + 1;
        }
        r
    }

    /// The command for every service of the table.
    fn command_every_service(&self, command: u16) -> (r: Vec<ManagerAction>)
        ensures
            r@ == command_all(self@.services, command),
    {
        let mut r: Vec<ManagerAction> = Vec::new();
        let mut i: usize = 0;
        while i < self.sdr_services.len()
            invariant
                i <= self.sdr_services@.len(),
                r@ == command_all(self.sdr_services@.take(i as int), command),
            decreases self.sdr_services@.len() - i,
        {
            assert(self.sdr_services@.take(i + 1).drop_last() =~= self.sdr_services@.take(
                i as int,
            ));
            if let Some(service) = self.sdr_services[i] {
                r.push(ManagerAction::Command { sid: service.sid() as u8, command });
            }
            i = i + 1;
        }
        assert(self.sdr_services@.take(i as int) =~= self.sdr_services@);
        r
    }

    /// Tests whether the manager can deal with a packet.
    pub fn can_handle(&self, pkt: &Packet, msg: &Incoming) -> (b: bool)
        ensures
            b == self@.accepts(pkt@, *msg),
    {
        if pkt.channel != 0 {
            return true;
        }
        if pkt.payload.len() < 2 {
            return false;
        }
        let message_id: u16 = pkt.message_id();
        if message_id == protos::MESSAGE_VERSION_REQUEST {
            pkt.payload.len() >= 6
        } else if message_id == protos::MESSAGE_AUTH_COMPLETE {
            match msg {
                Incoming::AuthResponse { status } => *status == MessageStatus::Success,
                _ => false,
            }
        } else if message_id == protos::MESSAGE_SERVICE_DISCOVERY_RESPONSE {
            match msg {
                Incoming::ServiceDiscoveryResponse { services } => {
                    let ok: bool = all_adoptable(services);
                    assert(discovered(*msg) == services@);
                    ok
                },
                _ => false,
            }
        } else {
            true
        }
    }

    /// Answers a packet from the head unit: it goes to the service of its channel, or
    /// is dealt with here where it belongs to the control channel. The services that
    /// are to be started come first in the result.
    ///
    /// Opening the channels counts as done here. Where one of the commands finds its
    /// queue closed, the session ends.
    pub fn handle_hu_message(&mut self, pkt: &Packet, msg: &Incoming) -> (r: (
        Vec<Service>,
        Vec<ManagerAction>,
    ))
        requires
            old(self)@.accepts(pkt@, *msg),
        ensures
            final(self)@ == old(self)@.after(pkt@, *msg),
            service_views(r.0@) == old(self)@.new_services(pkt@, *msg),
            r.1@ == old(self)@.actions(pkt@, *msg),
            old(self)@.well_formed() ==> final(self)@.well_formed(),
    {
        let ghost start = self@;
        let mut services: Vec<Service> = Vec::new();
        let mut actions: Vec<ManagerAction> = Vec::new();
        assert(service_views(services@) =~= Seq::<ServiceView>::empty());
        if pkt.channel == 0 {
            // Control channel
            let message_id: u16 = pkt.message_id();
            if message_id == protos::MESSAGE_VERSION_REQUEST {
                // send back the version that was requested
                actions.push(
                    ManagerAction::VersionResponse {
                        major: wire::read_be16(pkt.payload.as_slice(), 2),
                        minor: wire::read_be16(pkt.payload.as_slice(), 4),
                    },
                );
            } else if message_id == protos::MESSAGE_AUTH_COMPLETE {
                actions.push(make_control_message(Outgoing::ServiceDiscoveryRequest));
            } else if message_id == protos::MESSAGE_SERVICE_DISCOVERY_RESPONSE {
                if let Incoming::ServiceDiscoveryResponse { services: entries } = msg {
                    services = self.adopt_all(entries);
                }
                actions.push(make_control_message(Outgoing::AudioFocusRequest));
            } else if message_id == protos::MESSAGE_PING_REQUEST {
                if let Incoming::PingRequest { timestamp } = msg {
                    actions.push(
                        make_control_message(Outgoing::PingResponse { timestamp: *timestamp }),
                    );
                }
            } else if message_id == protos::MESSAGE_AUDIO_FOCUS_NOTIFICATION {
                if let Incoming::AudioFocusNotification { focus_state } = msg {
                    if self.ch_opened {
                        // the focus is managed on the audio channel
                        let sid: u8 = self.sdr_audio_codec_params.sid;
                        if is_present(&self.sdr_services, sid) {
                            actions.push(ManagerAction::Forward { sid });
                        }
                    } else if *focus_state == AudioFocusState::Gain || *focus_state
                        == AudioFocusState::GainTransient {
                        actions.push(ManagerAction::HuConfigDelay);
                        let mut commands = self.command_every_service(protos::CMD_OPEN_CH);
                        actions.append(&mut commands);
                        self.ch_opened = true;
                    }
                }
            }
        } else if is_present(&self.sdr_services, pkt.channel) {
            // Service channel
            actions.push(ManagerAction::Forward { sid: pkt.channel });
        }
        assert(actions@ =~= start.actions(pkt@, *msg));
        assert(self@ =~= start.after(pkt@, *msg));
        (services, actions)
    }

    fn command_or_cancel(&self, sid: u8, command: u16) -> (a: ManagerAction)
        ensures
            a == self@.command_or_cancel(sid, command),
    {
        if sid > 0 && is_present(&self.sdr_services, sid) {
            ManagerAction::Command { sid, command }
        } else {
            ManagerAction::Cancel
        }
    }

    /// How the recording servers are started, one after the other, with time for each
    /// to connect.
    pub fn start_adb_servers(&self) -> (r: Vec<ManagerAction>)
        ensures
            r@ == self@.start_actions(),
    {
        let mut r: Vec<ManagerAction> = Vec::new();
        r.push(ManagerAction::StartAdbServer);
        r.push(ManagerAction::Delay { millis: 500 });
        r.push(
            self.command_or_cancel(
                self.sdr_video_codec_params.sid,
                protos::CMD_START_VIDEO_RECORDING,
            ),
        );
        r.push(ManagerAction::Delay { millis: 100 });
        r.push(
            self.command_or_cancel(
                self.sdr_audio_codec_params.sid,
                protos::CMD_START_AUDIO_RECORDING,
            ),
        );
        r.push(ManagerAction::Delay { millis: 100 });
        r.push(
            self.command_or_cancel(
                self.sdr_control_server_sid,
                protos::CMD_START_CONTROL_SERVER,
            ),
        );
        assert(r@ =~= self@.start_actions());
        r
    }

    /// Notes that a recording server is ready. Once all of them are, they are started.
    pub fn server_ready(&mut self, server: RecordingServer) -> (r: Vec<ManagerAction>)
        ensures
            final(self)@ == old(self)@.with_ready(server),
            r@ == old(self)@.ready_actions(server),
    {
        let ghost start = self@;
        match server {
            RecordingServer::Audio => {
                self.audio_srv_ready = true;
            },
            RecordingServer::Video => {
                self.video_srv_ready = true;
            },
            RecordingServer::Control => {
                self.control_srv_ready = true;
            },
        }
        assert(self@ =~= start.with_ready(server));
        if self.audio_srv_ready && self.video_srv_ready && self.control_srv_ready {
            let r = self.start_adb_servers();
            assert(self@.start_actions() =~= start.start_actions());
            r
        } else {
            Vec::new()
        }
    }
}

fn is_adoptable(e: &ServiceEntry) -> (b: bool)
    ensures
        b == adoptable(*e),
{
    let leads: bool = match &e.media_sink {
        Some(sink) => if sink.audio_configs.len() > 0 {
            sink.audio_type == AudioStream::GUIDANCE || sink.audio_type == AudioStream::MEDIA
        } else {
            sink.video_configs.len() > 0
        },
        None => e.media_source || e.sensor_source.is_some() || e.input_source.is_some()
            || e.vendor_extension || e.bluetooth,
    };
    !leads || e.id as i8 >= 0
}

fn all_adoptable(entries: &Vec<ServiceEntry>) -> (b: bool)
    ensures
        b == forall|i: int| 0 <= i < entries@.len() ==> adoptable(#[trigger] entries@[i]),
{
    let mut i: usize = 0;
    while i < entries.len()
        invariant
            i <= entries@.len(),
            forall|j: int| 0 <= j < i ==> adoptable(#[trigger] entries@[j]),
        decreases entries@.len() - i,
    {
        if !is_adoptable(&entries[i]) {
            assert(!adoptable(entries@[i as int]));
            return false;
        }
        i = i + 1;
    }
    true
}

fn make_control_message(message: Outgoing) -> (a: ManagerAction)
    ensures
        a == control_message(message),
{
    ManagerAction::Send { channel: 0, flags: ENCRYPTED_FULL, message }
}

/// The packet that answers a version request.
pub open spec fn version_packet(major: u16, minor: u16) -> PacketView {
    messages::message_packet(
        0,
        FRAME_TYPE_FULL,
        protos::MESSAGE_VERSION_RESPONSE,
        wire::be16(major) + wire::be16(minor) + wire::be16(protos::STATUS_SUCCESS),
    )
}

/// The packet that answers a version request: it accepts the version.
pub fn version_response(major: u16, minor: u16) -> (pkt: Packet)
    ensures
        pkt@ == version_packet(major, minor),
{
    let mut body: Vec<u8> = Vec::new();
    wire::push_be16(&mut body, major);
    wire::push_be16(&mut body, minor);
    wire::push_be16(&mut body, protos::STATUS_SUCCESS);
    assert(body@ =~= wire::be16(major) + wire::be16(minor) + wire::be16(protos::STATUS_SUCCESS));
    messages::compose(0, FRAME_TYPE_FULL, protos::MESSAGE_VERSION_RESPONSE, body.as_slice())
}

/// The answer to a version request holds, between its number and its status, the four
/// bytes of the request that name the version.
pub proof fn law_version_is_echoed(request: PacketView)
    requires
        request.payload.len() >= 6,
    ensures
        version_packet(
            wire::be16_at(request.payload, 2),
            wire::be16_at(request.payload, 4),
        ).payload.subrange(2, 6) == request.payload.subrange(2, 6),
{
    let p = version_packet(wire::be16_at(request.payload, 2), wire::be16_at(request.payload, 4));
    assert(p.payload.subrange(2, 6) =~= request.payload.subrange(2, 6));
}

/// A message on the control channel.
pub open spec fn control_message(message: Outgoing) -> ManagerAction {
    ManagerAction::Send { channel: 0, flags: ENCRYPTED_FULL, message }
}

// ---------------------------------------------------------------------------
// What the manager does, by the bytes of the packets.

/// A packet on a channel other than 0 goes to the service of that number where there is one,
/// and nowhere else, whatever its flags, its length and its payload are. The manager learns
/// nothing from it.
pub proof fn law_packets_go_to_their_service(m: ManagerView, pkt: PacketView, msg: Incoming)
    requires
        pkt.channel != 0,
    ensures
        pkt.channel < m.services.len() && m.services[pkt.channel as int] is Some ==> m.actions(
            pkt,
            msg,
        ).len() == 1 && m.actions(pkt, msg)[0] == (ManagerAction::Forward { sid: pkt.channel }),
        pkt.channel >= m.services.len() || m.services[pkt.channel as int] is None ==> m.actions(
            pkt,
            msg,
        ).len() == 0,
        m.after(pkt, msg) == m,
        m.new_services(pkt, msg).len() == 0,
        m.accepts(pkt, msg),
{
}

/// Two managers with the same table do the same with two packets of the same channel, as
/// long as that is not 0: nothing else of the packets or of the managers counts.
pub proof fn law_channel_and_table_decide(
    a: ManagerView,
    b: ManagerView,
    p: PacketView,
    q: PacketView,
    pm: Incoming,
    qm: Incoming,
)
    requires
        p.channel != 0,
        p.channel == q.channel,
        a.services == b.services,
    ensures
        a.actions(p, pm) == b.actions(q, qm),
{
}

/// On the control channel flags and total length do not count, and of the payload only the
/// number of the message does, with the four bytes of the version behind it.
pub proof fn law_control_messages_are_told_by_number(
    m: ManagerView,
    p: PacketView,
    q: PacketView,
    msg: Incoming,
)
    requires
        p.channel == 0,
        q.channel == 0,
        p.payload.len() >= 2,
        q.payload.len() >= 2,
        p.payload[0] == q.payload[0],
        p.payload[1] == q.payload[1],
        p.payload[0] == 0 && p.payload[1] == 1 ==> p.payload.len() >= 6 && q.payload.len() >= 6
            && p.payload.subrange(2, 6) == q.payload.subrange(2, 6),
    ensures
        m.actions(p, msg) == m.actions(q, msg),
        m.after(p, msg) == m.after(q, msg),
        m.new_services(p, msg) == m.new_services(q, msg),
        m.accepts(p, msg) == m.accepts(q, msg),
{
    if p.payload[0] == 0 && p.payload[1] == 1 {
        let a = p.payload.subrange(2, 6);
        let b = q.payload.subrange(2, 6);
        assert(a[0] == p.payload[2] && a[1] == p.payload[3] && a[2] == p.payload[4] && a[3]
            == p.payload[5]);
        assert(b[0] == q.payload[2] && b[1] == q.payload[3] && b[2] == q.payload[4] && b[3]
            == q.payload[5]);
    }
}

/// How the manager answers on the control channel: 00 01 with the version that follows,
/// 00 04 with the request for the services, 00 06 with the request for the audio focus, and
/// 00 0B with the same time stamp. Every request is sent encrypted in one frame on channel
/// 0. Messages of other numbers than these and 00 13 are not answered and change nothing.
pub proof fn law_control_messages_are_answered(m: ManagerView, pkt: PacketView, msg: Incoming)
    requires
        pkt.channel == 0,
        pkt.payload.len() >= 2,
        pkt.payload[0] == 0,
    ensures
        pkt.payload[1] == 1 ==> m.actions(pkt, msg) == seq![
            ManagerAction::VersionResponse {
                major: (pkt.payload[2] * 256 + pkt.payload[3]) as u16,
                minor: (pkt.payload[4] * 256 + pkt.payload[5]) as u16,
            },
        ],
        pkt.payload[1] == 4 ==> m.actions(pkt, msg) == seq![
            ManagerAction::Send {
                channel: 0,
                flags: 11,
                message: Outgoing::ServiceDiscoveryRequest,
            },
        ],
        pkt.payload[1] == 6 ==> m.actions(pkt, msg) == seq![
            ManagerAction::Send { channel: 0, flags: 11, message: Outgoing::AudioFocusRequest },
        ],
        pkt.payload[1] == 11 && msg is PingRequest ==> m.actions(pkt, msg) == seq![
            ManagerAction::Send {
                channel: 0,
                flags: 11,
                message: Outgoing::PingResponse { timestamp: msg->timestamp },
            },
        ],
        pkt.payload[1] != 6 && pkt.payload[1] != 19 ==> m.after(pkt, msg) == m,
        pkt.payload[1] != 6 ==> m.new_services(pkt, msg).len() == 0,
        pkt.payload[1] != 1 && pkt.payload[1] != 4 && pkt.payload[1] != 6 && pkt.payload[1] != 11
            && pkt.payload[1] != 19 ==> m.actions(pkt, msg).len() == 0,
{
}

/// A message of the control channel whose number is above 255 is not answered and changes
/// nothing.
pub proof fn law_unknown_control_messages_are_ignored(
    m: ManagerView,
    pkt: PacketView,
    msg: Incoming,
)
    requires
        pkt.channel == 0,
        pkt.payload.len() >= 2,
        pkt.payload[0] != 0,
    ensures
        m.actions(pkt, msg).len() == 0,
        m.after(pkt, msg) == m,
        m.new_services(pkt, msg).len() == 0,
        m.accepts(pkt, msg),
{
}

/// The audio focus on the control channel (00 13). The first gain opens the channels: after
/// a pause every service is told to. From then on every report goes to the audio service
/// alone, and the channels stay open.
pub proof fn law_audio_focus_opens_the_channels_once(
    m: ManagerView,
    pkt: PacketView,
    msg: Incoming,
    sid: u8,
)
    requires
        m.well_formed(),
        pkt.channel == 0,
        pkt.payload.len() >= 2,
        pkt.payload[0] == 0,
        pkt.payload[1] == 19,
        msg is AudioFocusNotification,
    ensures
        ({
            let state = msg->focus_state;
            let gains = state == AudioFocusState::Gain || state == AudioFocusState::GainTransient;
            let actions = m.actions(pkt, msg);
            let audio = m.audio_params.sid;
            &&& m.after(pkt, msg) == (ManagerView { ch_opened: m.ch_opened || gains, ..m })
            &&& m.new_services(pkt, msg).len() == 0
            &&& !m.ch_opened && gains ==> actions.len() > 0 && actions[0]
                == ManagerAction::HuConfigDelay
            &&& !m.ch_opened && gains && sid < m.services.len() && m.services[sid as int] is Some
                ==> actions.contains(ManagerAction::Command { sid, command: 1 })
            &&& !m.ch_opened && !gains ==> actions.len() == 0
            &&& m.ch_opened && audio < m.services.len() && m.services[audio as int] is Some
                ==> actions == seq![ManagerAction::Forward { sid: audio }]
            &&& m.ch_opened && !(audio < m.services.len() && m.services[audio as int] is Some)
                ==> actions.len() == 0
        }),
{
    law_commands_name_services(m, 1);
    let all = command_all(m.services, 1);
    if !m.ch_opened && opens_channels(msg->focus_state) && has_service(m.services, sid) {
        assert(all.contains(ManagerAction::Command { sid, command: 1 }));
        let k = choose|k: int|
            0 <= k < all.len() && all[k] == (ManagerAction::Command { sid, command: 1 });
        assert(m.actions(pkt, msg)[k + 1] == all[k]);
    }
}

/// The table after a service was put into it: the service stands at its number, every other
/// place is as it was, and the new places in between are empty.
pub proof fn law_table_keeps_other_services(
    services: Seq<Option<AAService>>,
    service: AAService,
    other: u8,
)
    requires
        service.sid >= 0,
    ensures
        with_service(services, service).len() > service.sid,
        with_service(services, service)[service.sid as int] == Some(service),
        other != service.sid && other < services.len() ==> with_service(
            services,
            service,
        )[other as int] == services[other as int],
        other != service.sid && other >= services.len() ==> !has_service(
            with_service(services, service),
            other,
        ),
{
}

/// Which service an entry leads to. A sink with audio formats is a guidance or a media
/// stream by its kind, one without them a video stream where it has picture formats; an
/// entry that is no sink leads to the first that it names of media source, sensors, input,
/// vendor extension and Bluetooth.
pub proof fn law_entries_lead_to_their_service(m: ManagerView, e: ServiceEntry)
    ensures
        ({
            let s = m.service_for(e);
            let sink = e.media_sink->0;
            let audio = e.media_sink is Some && sink.audio_configs@.len() > 0;
            &&& audio && sink.audio_type == AudioStream::GUIDANCE ==> s is Some && s->0
                is AudioGuidance
            &&& audio && sink.audio_type == AudioStream::MEDIA ==> s is Some && s->0
                is AudioStreaming
            &&& audio && sink.audio_type != AudioStream::GUIDANCE && sink.audio_type
                != AudioStream::MEDIA ==> s is None
            &&& e.media_sink is Some && !audio && sink.video_configs@.len() > 0 ==> s is Some && s->0
                is Video
            &&& e.media_sink is Some && !audio && sink.video_configs@.len() == 0 ==> s is None
            &&& e.media_sink is None && e.media_source ==> s is Some && s->0 is MediaSource
            &&& e.media_sink is None && !e.media_source && e.sensor_source is Some ==> s is Some
                && s->0 is Sensor
            &&& e.media_sink is None && !e.media_source && e.sensor_source is None
                && e.input_source is Some ==> s is Some && s->0 is Input
            &&& e.media_sink is None && !e.media_source && e.sensor_source is None
                && e.input_source is None && e.vendor_extension ==> s is Some && s->0
                is VendorExtension
            &&& e.media_sink is None && !e.media_source && e.sensor_source is None
                && e.input_source is None && !e.vendor_extension && e.bluetooth ==> s is Some
                && s->0 is Bluetooth
            &&& e.media_sink is None && !e.media_source && e.sensor_source is None
                && e.input_source is None && !e.vendor_extension && !e.bluetooth ==> s is None
        }),
{
    reveal(ManagerView::service_for);
}

/// What the services start with. Video and media sound are enabled, guidance is not. The
/// streams wait for acknowledgements unless these are ignored. The input service gets the
/// size in which video is recorded and the keys of its entry, the sensor service all sensors
/// that are known by then.
pub proof fn law_services_start_with_what_was_learned(m: ManagerView, e: ServiceEntry)
    ensures
        ({
            let after = m.adopted(e);
            &&& m.service_for(e) matches Some(ServiceView::Video(s)) ==> s.enabled
                && s.video_params == after.video_params && s.ignore_ack
                == m.config.ignore_media_ack
            &&& m.service_for(e) matches Some(ServiceView::AudioStreaming(s)) ==> s.enabled
                && s.acfg == after.audio_cfg_streaming && s.audio_params == after.audio_params
                && s.ignore_ack == m.config.ignore_media_ack
            &&& m.service_for(e) matches Some(ServiceView::AudioGuidance(s)) ==> !s.enabled
                && s.acfg == after.audio_cfg_guidance
            &&& m.service_for(e) matches Some(
                ServiceView::Input { keys, screen_size, cfg_screen_off, .. },
            ) ==> keys == (e.input_source->0)@ && after.keys == keys && screen_size.width
                == m.video_params.res_w as u16 && screen_size.height == m.video_params.res_h as u16
                && cfg_screen_off == m.config.scrcpy_screen_off && after.control_sid == e.id as u8
            &&& m.service_for(e) matches Some(ServiceView::Sensor { sensors, .. }) ==> sensors
                == after.sensors
        }),
{
    reveal(ManagerView::service_for);
    reveal(ManagerView::adopted);
}

/// An entry changes only what it is about: the parameters of video, of media sound, of
/// guidance, the sensors and the keys are each learned from entries of that kind alone, and
/// configuration, focus and readiness from none.
pub proof fn law_entries_change_their_own_parameters(m: ManagerView, e: ServiceEntry)
    ensures
        ({
            let after = m.adopted(e);
            let s = m.service_for(e);
            &&& after.config == m.config && after.ch_opened == m.ch_opened && after.audio_ready
                == m.audio_ready && after.video_ready == m.video_ready && after.control_ready
                == m.control_ready
            &&& !(s is Some && s->0 is Video) ==> after.video_params == m.video_params
            &&& !(s is Some && s->0 is AudioStreaming) ==> after.audio_params == m.audio_params
                && after.audio_cfg_streaming == m.audio_cfg_streaming
            &&& !(s is Some && s->0 is AudioGuidance) ==> after.audio_cfg_guidance
                == m.audio_cfg_guidance
            &&& !(s is Some && s->0 is Sensor) ==> after.sensors == m.sensors
            &&& !(s is Some && s->0 is Input) ==> after.keys == m.keys && after.control_sid
                == m.control_sid
            &&& s is None ==> after == m
        }),
{
    reveal(ManagerView::service_for);
    reveal(ManagerView::adopted);
}

/// What is learned of the media streams: the number of their channel, the first of the
/// formats that the sink offers, and nothing of the later ones.
pub proof fn law_first_format_counts(m: ManagerView, e: ServiceEntry)
    requires
        e.media_sink is Some,
    ensures
        ({
            let sink = e.media_sink->0;
            let after = m.adopted(e);
            let audio = sink.audio_configs@;
            let video = sink.video_configs@;
            &&& audio.len() > 0 && sink.audio_type == AudioStream::MEDIA ==> {
                &&& after.audio_params.sid == e.id as u8
                &&& after.audio_params.bitrate == audio[0].sampling_rate as i32
                &&& after.audio_params.codec == after.audio_cfg_streaming.codec
                &&& after.audio_params.max_unack == m.audio_params.max_unack
                &&& after.audio_cfg_streaming.stream_type == AudioStream::MEDIA
                &&& after.audio_cfg_streaming.bitrate == audio[0].sampling_rate
                &&& after.audio_cfg_streaming.channels == audio[0].number_of_channels
                &&& after.audio_cfg_streaming.bitdepth == audio[0].number_of_bits
            }
            &&& audio.len() > 0 && sink.audio_type == AudioStream::GUIDANCE ==> {
                &&& after.audio_cfg_guidance.stream_type == AudioStream::GUIDANCE
                &&& after.audio_cfg_guidance.bitrate == audio[0].sampling_rate
                &&& after.audio_cfg_guidance.channels == audio[0].number_of_channels
                &&& after.audio_cfg_guidance.bitdepth == audio[0].number_of_bits
            }
            &&& audio.len() == 0 && video.len() > 0 ==> {
                &&& after.video_params.sid == e.id as u8
                &&& after.video_params.dpi == video[0].density as i32
                &&& after.video_params.max_unack == m.video_params.max_unack
                &&& video[0].frame_rate == VideoFPS::FPS_60 ==> after.video_params.fps == 60
                &&& video[0].frame_rate == VideoFPS::FPS_30 ==> after.video_params.fps == 30
                &&& m.config.video_bitrate > 0 ==> after.video_params.bitrate
                    == m.config.video_bitrate
                &&& m.config.video_bitrate <= 0 ==> after.video_params.bitrate == if after.video_params.res_w
                    == 1920 {
                    16_000_000i32
                } else if after.video_params.res_w == 1280 {
                    8_000_000
                } else {
                    4_000_000
                }
            }
        }),
{
    reveal(ManagerView::service_for);
    reveal(ManagerView::adopted);
}

/// Sound is recorded as AAC exactly where the sink takes AAC, with or without ADTS, and as
/// PCM otherwise. Pictures are recorded in 1920 by 1080 or 1280 by 720 exactly for the
/// resolutions of that size, and in 800 by 480 otherwise.
pub proof fn law_recording_formats(codec: MediaCodec, resolution: VideoCodecResolution)
    ensures
        codec == MediaCodec::AUDIO_AAC_LC ==> audio_codec(codec) == codec,
        codec == MediaCodec::AUDIO_AAC_LC_ADTS ==> audio_codec(codec) == codec,
        codec != MediaCodec::AUDIO_AAC_LC && codec != MediaCodec::AUDIO_AAC_LC_ADTS ==> audio_codec(
            codec,
        ) == MediaCodec::AUDIO_PCM,
        recording_size(resolution).1 == 1920 <==> resolution
            == VideoCodecResolution::Video_1080x1920,
        recording_size(resolution).1 == 1280 <==> resolution
            == VideoCodecResolution::Video_720x1280,
        recording_size(resolution).1 == 1920 || recording_size(resolution).1 == 1280
            || recording_size(resolution).1 == 800,
        recording_size(resolution).1 == 1920 <==> recording_size(resolution).2 == 1080,
        recording_size(resolution).1 == 1280 <==> recording_size(resolution).2 == 720,
        recording_size(resolution).1 == 800 <==> recording_size(resolution).2 == 480,
{
}

/// The sensors that are learned from numbers, told by their own numbers: the numbers from 1
/// to 24 in their order, and no others.
pub proof fn law_sensors_keep_their_numbers(numbers: Seq<i32>)
    ensures
        known_sensors(numbers).map_values(|s: SensorType| aa_services::sensor_number(s))
            == numbers.filter(|n: i32| 1 <= n && n <= 24),
    decreases numbers.len(),
{
    let keep = |n: i32| 1 <= n && n <= 24;
    let number = |s: SensorType| aa_services::sensor_number(s);
    reveal(Seq::filter);
    if numbers.len() > 0 {
        law_sensors_keep_their_numbers(numbers.drop_last());
        let before = known_sensors(numbers.drop_last());
        let n = numbers.last();
        if 1 <= n <= 24 {
            let picked = choose|s: SensorType| #[trigger] aa_services::sensor_number(s) == n;
            lemma_sensor_of_number(n);
            assert(aa_services::sensor_number(picked) == n);
            assert(before.push(picked).map_values(number) =~= before.map_values(number).push(n));
        }
    } else {
        assert(known_sensors(numbers).map_values(number) =~= numbers.filter(keep));
    }
}

proof fn lemma_sensor_of_number(n: i32)
    requires
        1 <= n <= 24,
    ensures
        exists|s: SensorType| #[trigger] aa_services::sensor_number(s) == n,
{
    assert(aa_services::sensor_number(SensorType::SENSOR_LOCATION) == 1);
    assert(aa_services::sensor_number(SensorType::SENSOR_COMPASS) == 2);
    assert(aa_services::sensor_number(SensorType::SENSOR_SPEED) == 3);
    assert(aa_services::sensor_number(SensorType::SENSOR_RPM) == 4);
    assert(aa_services::sensor_number(SensorType::SENSOR_ODOMETER) == 5);
    assert(aa_services::sensor_number(SensorType::SENSOR_FUEL) == 6);
    assert(aa_services::sensor_number(SensorType::SENSOR_PARKING_BRAKE) == 7);
    assert(aa_services::sensor_number(SensorType::SENSOR_GEAR) == 8);
    assert(aa_services::sensor_number(SensorType::SENSOR_OBDII_DIAGNOSTIC_CODE) == 9);
    assert(aa_services::sensor_number(SensorType::SENSOR_NIGHT_MODE) == 10);
    assert(aa_services::sensor_number(SensorType::SENSOR_ENVIRONMENT_DATA) == 11);
    assert(aa_services::sensor_number(SensorType::SENSOR_HVAC_DATA) == 12);
    assert(aa_services::sensor_number(SensorType::SENSOR_DRIVING_STATUS_DATA) == 13);
    assert(aa_services::sensor_number(SensorType::SENSOR_DEAD_RECKONING_DATA) == 14);
    assert(aa_services::sensor_number(SensorType::SENSOR_PASSENGER_DATA) == 15);
    assert(aa_services::sensor_number(SensorType::SENSOR_DOOR_DATA) == 16);
    assert(aa_services::sensor_number(SensorType::SENSOR_LIGHT_DATA) == 17);
    assert(aa_services::sensor_number(SensorType::SENSOR_TIRE_PRESSURE_DATA) == 18);
    assert(aa_services::sensor_number(SensorType::SENSOR_ACCELEROMETER_DATA) == 19);
    assert(aa_services::sensor_number(SensorType::SENSOR_GYROSCOPE_DATA) == 20);
    assert(aa_services::sensor_number(SensorType::SENSOR_GPS_SATELLITE_DATA) == 21);
    assert(aa_services::sensor_number(SensorType::SENSOR_TOLL_CARD) == 22);
    assert(aa_services::sensor_number(SensorType::SENSOR_VEHICLE_ENERGY_MODEL_DATA) == 23);
    assert(aa_services::sensor_number(SensorType::SENSOR_TRAILER_DATA) == 24);
}

/// How the recording servers start: first the server on the mobile device, then with pauses
/// of 500, 100 and 100 ms the recording of video, the recording of sound and the control
/// server. A service that is missing ends the session instead.
pub proof fn law_recording_starts_in_order(m: ManagerView)
    ensures
        ({
            let a = m.start_actions();
            let video = m.video_params.sid;
            let audio = m.audio_params.sid;
            let control = m.control_sid;
            &&& a.len() == 7
            &&& a[0] == ManagerAction::StartAdbServer
            &&& a[1] == (ManagerAction::Delay { millis: 500 })
            &&& a[3] == (ManagerAction::Delay { millis: 100 })
            &&& a[5] == (ManagerAction::Delay { millis: 100 })
            &&& video > 0 && video < m.services.len() && m.services[video as int] is Some ==> a[2]
                == (ManagerAction::Command { sid: video, command: 3 })
            &&& !(video > 0 && video < m.services.len() && m.services[video as int] is Some)
                ==> a[2] == ManagerAction::Cancel
            &&& audio > 0 && audio < m.services.len() && m.services[audio as int] is Some ==> a[4]
                == (ManagerAction::Command { sid: audio, command: 6 })
            &&& !(audio > 0 && audio < m.services.len() && m.services[audio as int] is Some)
                ==> a[4] == ManagerAction::Cancel
            &&& control > 0 && control < m.services.len() && m.services[control as int] is Some
                ==> a[6] == (ManagerAction::Command { sid: control, command: 9 })
            &&& !(control > 0 && control < m.services.len() && m.services[control as int] is Some)
                ==> a[6] == ManagerAction::Cancel
        }),
{
}

/// A report of a recording server is about that server alone, and repeating it changes
/// nothing.
pub proof fn law_reports_are_kept_apart(m: ManagerView, server: RecordingServer)
    ensures
        m.with_ready(server).audio_ready == (m.audio_ready || server == RecordingServer::Audio),
        m.with_ready(server).video_ready == (m.video_ready || server == RecordingServer::Video),
        m.with_ready(server).control_ready == (m.control_ready || server
            == RecordingServer::Control),
        m.with_ready(server) == (ManagerView {
            audio_ready: m.with_ready(server).audio_ready,
            video_ready: m.with_ready(server).video_ready,
            control_ready: m.with_ready(server).control_ready,
            ..m
        }),
        m.with_ready(server).with_ready(server) == m.with_ready(server),
{
}

/// The answer to a version request: on channel 0, plain and in one frame, the number 2, the
/// version and success.
pub proof fn law_version_answer(major: u16, minor: u16)
    ensures
        ({
            let p = version_packet(major, minor);
            &&& p.channel == 0 && p.flags == 3 && p.final_length is None
            &&& p.payload.len() == 8
            &&& p.payload[0] == 0 && p.payload[1] == 2
            &&& p.payload[2] * 256 + p.payload[3] == major
            &&& p.payload[4] * 256 + p.payload[5] == minor
            &&& p.payload[6] == 0 && p.payload[7] == 0
        }),
{
}

/// The servers are started with the third that is ready, and not before, in whatever order
/// they come.
pub proof fn law_last_server_starts_the_recording(m: ManagerView)
    ensures
        m.audio_ready && m.video_ready ==> m.ready_actions(RecordingServer::Control)
            == m.start_actions(),
        m.audio_ready && m.control_ready ==> m.ready_actions(RecordingServer::Video)
            == m.start_actions(),
        m.video_ready && m.control_ready ==> m.ready_actions(RecordingServer::Audio)
            == m.start_actions(),
        !m.audio_ready ==> m.ready_actions(RecordingServer::Video).len() == 0
            && m.ready_actions(RecordingServer::Control).len() == 0,
        !m.video_ready ==> m.ready_actions(RecordingServer::Audio).len() == 0
            && m.ready_actions(RecordingServer::Control).len() == 0,
        !m.control_ready ==> m.ready_actions(RecordingServer::Audio).len() == 0
            && m.ready_actions(RecordingServer::Video).len() == 0,
{
}

/// A manager begins with nothing: no service, sensor or key is known, no channel is open and
/// no server is ready, so that no packet reaches a service and the first ready server starts
/// nothing.
pub proof fn law_manager_begins_with_nothing(config: AppConfig, server: RecordingServer)
    ensures
        ({
            let m = ManagerView::fresh(config);
            &&& m.config == config
            &&& m.services.len() == 0 && m.sensors.len() == 0 && m.keys.len() == 0
            &&& !m.ch_opened && m.control_sid == 0
            &&& !m.audio_ready && !m.video_ready && !m.control_ready
            &&& m.ready_actions(server).len() == 0
            &&& m.audio_cfg_guidance == aa_services::default_audio_config()
            &&& m.audio_cfg_streaming == aa_services::default_audio_config()
            &&& m.video_params == aa_services::default_video_params()
            &&& m.audio_params == aa_services::default_audio_params()
        }),
{
}

/// Every packet of a service can be handled. On the control channel a packet must hold a
/// number. One of 00 01 must hold two more numbers, one of 00 04 must be a success, and one
/// of 00 06 must be a list of services with numbers up to 127; all others can be handled as
/// they are.
pub proof fn law_packets_that_can_be_handled(
    m: ManagerView,
    p: PacketView,
    msg: Incoming,
    i: int,
)
    ensures
        p.channel != 0 ==> m.accepts(p, msg),
        p.channel == 0 && p.payload.len() < 2 ==> !m.accepts(p, msg),
        p.channel == 0 && p.payload.len() >= 2 && !(p.payload[0] == 0 && (p.payload[1] == 1
            || p.payload[1] == 4 || p.payload[1] == 6)) ==> m.accepts(p, msg),
        p.channel == 0 && p.payload.len() >= 2 && p.payload[0] == 0 && p.payload[1] == 1 ==> (
        m.accepts(p, msg) <==> p.payload.len() >= 6),
        p.channel == 0 && p.payload.len() >= 2 && p.payload[0] == 0 && p.payload[1] == 4 ==> (
        m.accepts(p, msg) <==> msg == (Incoming::AuthResponse { status: MessageStatus::Success })),
        p.channel == 0 && p.payload.len() >= 2 && p.payload[0] == 0 && p.payload[1] == 6 ==> {
            &&& m.accepts(p, msg) ==> msg is ServiceDiscoveryResponse
            &&& msg is ServiceDiscoveryResponse && (forall|k: int|
                0 <= k < discovered(msg).len() ==> 0 <= (#[trigger] discovered(msg)[k]).id <= 127)
                ==> m.accepts(p, msg)
            &&& 0 <= i < discovered(msg).len() && 128 <= discovered(msg)[i].id <= 255
                && m.service_for(discovered(msg)[i]) is Some ==> !m.accepts(p, msg)
        },
{
    let e = discovered(msg)[i];
    lemma_leads_to_service(m, e);
    let id: i32 = e.id;
    if 128 <= id <= 255 {
        assert((id as i8) < 0) by (bit_vector)
            requires
                128 <= id <= 255,
        ;
    }
}

} // verus!
