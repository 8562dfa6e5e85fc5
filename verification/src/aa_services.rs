//! The services that a head unit offers, and what this device answers on their
//! channels.
use vstd::prelude::*;

use crate::channel_manager::{Packet, PacketView, ENCRYPTED_FULL, ENCRYPTED_FULL_CONTROL};
use crate::messages;
use crate::messages::{ConfigStatus, Incoming, MessageStatus, Outgoing};
use crate::protos;

verus! {

#[derive(Clone, Copy, Debug, PartialEq, Eq, Structural)]
pub enum ServiceType {
    Unset,
    Control,
    InputSource,
    MediaSink,
    MediaSource,
    SensorSource,
    VendorExtension,
    Bluetooth,
}

impl ServiceType {
    /// The name of the service type.
    pub open spec fn name_spec(self) -> Seq<char> {
        match self {
            ServiceType::Unset => "None"@,
            ServiceType::Control => "Control"@,
            ServiceType::InputSource => "InputSource"@,
            ServiceType::MediaSink => "MediaSink"@,
            ServiceType::MediaSource => "MediaSource"@,
            ServiceType::SensorSource => "SensorSource"@,
            ServiceType::VendorExtension => "VendorExtension"@,
            ServiceType::Bluetooth => "Bluetooth"@,
        }
    }

    /// The name of the service type.
    pub fn to_text(&self) -> (r: String)
        ensures
            r@ == self.name_spec(),
    {
        match self {
            ServiceType::Unset => "None".to_owned(),
            ServiceType::Control => "Control".to_owned(),
            ServiceType::InputSource => "InputSource".to_owned(),
            ServiceType::MediaSink => "MediaSink".to_owned(),
            ServiceType::MediaSource => "MediaSource".to_owned(),
            ServiceType::SensorSource => "SensorSource".to_owned(),
            ServiceType::VendorExtension => "VendorExtension".to_owned(),
            ServiceType::Bluetooth => "Bluetooth".to_owned(),
        }
    }
}

impl Default for ServiceType {
    fn default() -> (r: Self)
        ensures
            r == ServiceType::Unset,
    {
        ServiceType::Unset
    }
}

#[derive(Clone, Copy, Debug, PartialEq, Eq, Structural)]
pub enum AAMessageType {
    Unknown,
    Control,
    Input,
    Media,
    Sensor,
    VendorExtension,
    Bluetooth,
    WiFiProjection,
}

#[derive(Clone, Copy, Debug, PartialEq, Eq, Structural)]
pub enum ProjectionStatus {
    TransitionToFS,
    FirstScreen,
    TransitionToProjected,
    ProjectedRecording,
    ProjectedPause,
}

#[derive(Clone, Copy, Debug, PartialEq, Eq, Structural)]
pub enum CommandState {
    NotDone,
    InProgress,
    Done,
}

impl Default for CommandState {
    fn default() -> (r: Self)
        ensures
            r == CommandState::NotDone,
    {
        CommandState::NotDone
    }
}

#[derive(Clone, Copy, Debug, PartialEq, Eq, Structural)]
pub struct ServiceStatus {
    pub open_ch_cmd: CommandState,
    pub service_type: ServiceType,
    pub ch_id: i32,
    /// Send Setup and all other subsequent commands.
    pub enabled: bool,
}

impl Default for ServiceStatus {
    fn default() -> (r: Self)
        ensures
            r == (ServiceStatus {
                open_ch_cmd: CommandState::NotDone,
                service_type: ServiceType::Unset,
                ch_id: 0,
                enabled: false,
            }),
    {
        ServiceStatus {
            open_ch_cmd: CommandState::NotDone,
            service_type: ServiceType::Unset,
            ch_id: 0,
            enabled: false,
        }
    }
}

#[derive(Clone, Copy, Debug, PartialEq, Eq, Structural)]
pub struct VideoStreamingParams {
    pub bitrate: i32,
    pub res_w: i32,
    pub res_h: i32,
    pub fps: i32,
    pub dpi: i32,
    pub sid: u8,
    pub max_unack: u32,
}

/// The video parameters before the head unit has said anything.
pub open spec fn default_video_params() -> VideoStreamingParams {
    VideoStreamingParams {
        bitrate: 4_000_000,
        res_w: 800,
        res_h: 480,
        fps: 60,
        dpi: 160,
        sid: 0,
        max_unack: 0,
    }
}

impl Default for VideoStreamingParams {
    fn default() -> (r: Self)
        ensures
            r == default_video_params(),
    {
        VideoStreamingParams {
            bitrate: 4_000_000,
            res_w: 800,
            res_h: 480,
            fps: 60,
            dpi: 160,
            sid: 0,
            max_unack: 0,
        }
    }
}

#[derive(Clone, Copy, Debug, PartialEq, Eq, Structural)]
pub struct AudioStreamingParams {
    pub codec: MediaCodec,
    pub bitrate: i32,
    pub sid: u8,
    pub max_unack: u32,
}

/// The audio parameters before the head unit has said anything.
pub open spec fn default_audio_params() -> AudioStreamingParams {
    AudioStreamingParams { codec: MediaCodec::AUDIO_PCM, bitrate: 4800, sid: 0, max_unack: 0 }
}

impl Default for AudioStreamingParams {
    fn default() -> (r: Self)
        ensures
            r == default_audio_params(),
    {
        AudioStreamingParams { codec: MediaCodec::AUDIO_PCM, bitrate: 4800, sid: 0, max_unack: 0 }
    }
}

#[allow(non_camel_case_types)]
#[derive(Clone, Copy, Debug, PartialEq, Eq, Structural)]
pub enum SensorType {
    SENSOR_LOCATION,
    SENSOR_COMPASS,
    SENSOR_SPEED,
    SENSOR_RPM,
    SENSOR_ODOMETER,
    SENSOR_FUEL,
    SENSOR_PARKING_BRAKE,
    SENSOR_GEAR,
    SENSOR_OBDII_DIAGNOSTIC_CODE,
    SENSOR_NIGHT_MODE,
    SENSOR_ENVIRONMENT_DATA,
    SENSOR_HVAC_DATA,
    SENSOR_DRIVING_STATUS_DATA,
    SENSOR_DEAD_RECKONING_DATA,
    SENSOR_PASSENGER_DATA,
    SENSOR_DOOR_DATA,
    SENSOR_LIGHT_DATA,
    SENSOR_TIRE_PRESSURE_DATA,
    SENSOR_ACCELEROMETER_DATA,
    SENSOR_GYROSCOPE_DATA,
    SENSOR_GPS_SATELLITE_DATA,
    SENSOR_TOLL_CARD,
    SENSOR_VEHICLE_ENERGY_MODEL_DATA,
    SENSOR_TRAILER_DATA,
}

/// The number by which the protocol knows a sensor.
pub open spec fn sensor_number(s: SensorType) -> i32 {
    match s {
        SensorType::SENSOR_LOCATION => 1,
        SensorType::SENSOR_COMPASS => 2,
        SensorType::SENSOR_SPEED => 3,
        SensorType::SENSOR_RPM => 4,
        SensorType::SENSOR_ODOMETER => 5,
        SensorType::SENSOR_FUEL => 6,
        SensorType::SENSOR_PARKING_BRAKE => 7,
        SensorType::SENSOR_GEAR => 8,
        SensorType::SENSOR_OBDII_DIAGNOSTIC_CODE => 9,
        SensorType::SENSOR_NIGHT_MODE => 10,
        SensorType::SENSOR_ENVIRONMENT_DATA => 11,
        SensorType::SENSOR_HVAC_DATA => 12,
        SensorType::SENSOR_DRIVING_STATUS_DATA => 13,
        SensorType::SENSOR_DEAD_RECKONING_DATA => 14,
        SensorType::SENSOR_PASSENGER_DATA => 15,
        SensorType::SENSOR_DOOR_DATA => 16,
        SensorType::SENSOR_LIGHT_DATA => 17,
        SensorType::SENSOR_TIRE_PRESSURE_DATA => 18,
        SensorType::SENSOR_ACCELEROMETER_DATA => 19,
        SensorType::SENSOR_GYROSCOPE_DATA => 20,
        SensorType::SENSOR_GPS_SATELLITE_DATA => 21,
        SensorType::SENSOR_TOLL_CARD => 22,
        SensorType::SENSOR_VEHICLE_ENERGY_MODEL_DATA => 23,
        SensorType::SENSOR_TRAILER_DATA => 24,
    }
}

impl SensorType {
    /// The sensor of that number, where there is one.
    pub fn from_number(v: i32) -> (r: Option<SensorType>)
        ensures
            r is Some <==> 1 <= v <= 24,
            r matches Some(s) ==> sensor_number(s) == v,
    {
        match v {
            1 => Some(SensorType::SENSOR_LOCATION),
            2 => Some(SensorType::SENSOR_COMPASS),
            3 => Some(SensorType::SENSOR_SPEED),
            4 => Some(SensorType::SENSOR_RPM),
            5 => Some(SensorType::SENSOR_ODOMETER),
            6 => Some(SensorType::SENSOR_FUEL),
            7 => Some(SensorType::SENSOR_PARKING_BRAKE),
            8 => Some(SensorType::SENSOR_GEAR),
            9 => Some(SensorType::SENSOR_OBDII_DIAGNOSTIC_CODE),
            10 => Some(SensorType::SENSOR_NIGHT_MODE),
            11 => Some(SensorType::SENSOR_ENVIRONMENT_DATA),
            12 => Some(SensorType::SENSOR_HVAC_DATA),
            13 => Some(SensorType::SENSOR_DRIVING_STATUS_DATA),
            14 => Some(SensorType::SENSOR_DEAD_RECKONING_DATA),
            15 => Some(SensorType::SENSOR_PASSENGER_DATA),
            16 => Some(SensorType::SENSOR_DOOR_DATA),
            17 => Some(SensorType::SENSOR_LIGHT_DATA),
            18 => Some(SensorType::SENSOR_TIRE_PRESSURE_DATA),
            19 => Some(SensorType::SENSOR_ACCELEROMETER_DATA),
            20 => Some(SensorType::SENSOR_GYROSCOPE_DATA),
            21 => Some(SensorType::SENSOR_GPS_SATELLITE_DATA),
            22 => Some(SensorType::SENSOR_TOLL_CARD),
            23 => Some(SensorType::SENSOR_VEHICLE_ENERGY_MODEL_DATA),
            24 => Some(SensorType::SENSOR_TRAILER_DATA),
            _ => None,
        }
    }
}

/// No two sensors share a number.
pub proof fn law_sensor_numbers_differ(a: SensorType, b: SensorType)
    requires
        sensor_number(a) == sensor_number(b),
    ensures
        a == b,
{
}

#[allow(non_camel_case_types)]
#[derive(Clone, Copy, Debug, PartialEq, Eq, Structural)]
pub enum VideoCodecResolution {
    Video_800x480,
    Video_1280x720,
    Video_1920x1080,
    Video_2560x1440,
    Video_3840x2160,
    Video_720x1280,
    Video_1080x1920,
    Video_1440x2560,
    Video_2160x3840,
}

#[allow(non_camel_case_types)]
#[derive(Clone, Copy, Debug, PartialEq, Eq, Structural)]
pub enum VideoFPS {
    FPS_60,
    FPS_30,
}

#[allow(non_camel_case_types)]
#[derive(Clone, Copy, Debug, PartialEq, Eq, Structural)]
pub enum MediaCodec {
    AUDIO_PCM,
    AUDIO_AAC_LC,
    VIDEO_H264_BP,
    AUDIO_AAC_LC_ADTS,
    VIDEO_VP9,
    VIDEO_AV1,
    VIDEO_H265,
}

#[allow(non_camel_case_types)]
#[derive(Clone, Copy, Debug, PartialEq, Eq, Structural)]
pub enum AudioStream {
    GUIDANCE,
    SYSTEM_AUDIO,
    MEDIA,
    TELEPHONY,
}

#[derive(Clone, Copy, Debug, PartialEq, Eq, Structural)]
pub struct VideoConfig {
    pub resolution: VideoCodecResolution,
    pub fps: VideoFPS,
    pub codec: MediaCodec,
}

#[derive(Clone, Copy, Debug, PartialEq, Eq, Structural)]
pub struct AudioChConfiguration {
    pub sampling_rate: u32,
    pub number_of_bits: u32,
    pub number_of_channels: u32,
}

#[derive(Clone, Copy, Debug, PartialEq, Eq, Structural)]
pub struct AudioConfig {
    pub codec: MediaCodec,
    pub stream_type: AudioStream,
    pub bitrate: u32,
    pub channels: u32,
    pub bitdepth: u32,
}

/// The audio format before the head unit has said anything.
pub open spec fn default_audio_config() -> AudioConfig {
    AudioConfig {
        codec: MediaCodec::AUDIO_PCM,
        stream_type: AudioStream::MEDIA,
        bitrate: 1_000_000,
        channels: 2,
        bitdepth: 16,
    }
}

impl Default for AudioConfig {
    fn default() -> (r: Self)
        ensures
            r == default_audio_config(),
    {
        AudioConfig {
            codec: MediaCodec::AUDIO_PCM,
            stream_type: AudioStream::MEDIA,
            bitrate: 1_000_000,
            channels: 2,
            bitdepth: 16,
        }
    }
}

/// What became of a packet that was put on a service's queue.
#[derive(Clone, Copy, Debug, PartialEq, Eq, Structural)]
pub enum QueueOutcome {
    Sent,
    Full,
    Closed,
}

/// The queue of a service is closed.
#[derive(Clone, Copy, Debug, PartialEq, Eq, Structural)]
pub struct QueueClosed {
    pub srv_type: ServiceType,
    pub sid: i8,
}

#[derive(Clone, Copy, Debug, PartialEq, Eq, Structural)]
pub struct AAService {
    pub sid: i8,
    pub srv_type: ServiceType,
}

impl AAService {
    pub fn new(srv_type: ServiceType, sid: i8) -> (r: Self)
        ensures
            r == (AAService { sid, srv_type }),
    {
        AAService { sid, srv_type }
    }

    pub fn sid(&self) -> (r: i8)
        ensures
            r == self.sid,
    {
        self.sid
    }

    /// What comes of the attempt to put a packet on the service's queue.
    pub open spec fn queue_result(self, outcome: QueueOutcome) -> Result<(), QueueClosed> {
        if outcome == QueueOutcome::Closed {
            Err(QueueClosed { srv_type: self.srv_type, sid: self.sid })
        } else {
            Ok(())
        }
    }

    /// Judges the attempt to put a packet on the service's queue: a packet that finds
    /// the queue full is dropped, only a closed queue is an error.
    pub fn enqueue_message(&self, outcome: QueueOutcome) -> (r: Result<(), QueueClosed>)
        ensures
            r == self.queue_result(outcome),
    {
        match outcome {
            QueueOutcome::Sent => Ok(()),
            QueueOutcome::Full => Ok(()),
            QueueOutcome::Closed => Err(QueueClosed { srv_type: self.srv_type, sid: self.sid }),
        }
    }
}

/// What a service asks for after it has seen a packet.
#[derive(Clone, Copy, Debug, PartialEq, Eq, Structural)]
pub enum Action {
    /// Send the message to the head unit.
    Send { channel: u8, flags: u8, message: Outgoing },
    /// Switch the theme of the mobile device.
    SwitchTheme { night: bool },
    /// Tell the manager that the recording server of this service can be started.
    NotifyReady,
    /// Start the recording server of this service.
    StartServer { max_unack: u8 },
    /// Start the control server of this service.
    StartControlServer,
    /// Hand one acknowledgement to the recording server.
    Ack,
    /// Let the recording server pause or go on.
    SetPaused { paused: bool },
    /// Hand the packet to the control server.
    ForwardInput,
    /// End the session.
    Cancel,
    /// Send a command to the recorder.
    Recorder { channel: u8, command: u16 },
    /// Send the command that starts video recording.
    RecordVideo { channel: u8, video: VideoStreamingParams },
    /// Send the command that starts audio recording.
    RecordAudio { channel: u8, audio: AudioStreamingParams },
}

/// A service's recording server.
#[derive(Clone, Copy, Debug, PartialEq, Eq, Structural)]
pub enum ServerState {
    Created,
    Running,
    /// Neither waiting nor running: it was given away.
    Missing,
}

/// The request that opens the channel of a service.
pub open spec fn open_request(channel: u8, service_id: i32) -> Action {
    Action::Send {
        channel,
        flags: ENCRYPTED_FULL_CONTROL,
        message: Outgoing::ChannelOpenRequest { priority: 0, service_id },
    }
}

/// A message to the head unit on a service's channel.
pub open spec fn reply(channel: u8, message: Outgoing) -> Action {
    Action::Send { channel, flags: ENCRYPTED_FULL, message }
}

/// The head unit has opened the channel.
pub open spec fn opened(pkt: PacketView, msg: Incoming) -> bool {
    &&& pkt.message_id() == protos::MESSAGE_CHANNEL_OPEN_RESPONSE
    &&& msg matches Incoming::ChannelOpenResponse { status } && status == MessageStatus::Success
}

/// The packet is the given command.
pub open spec fn is_command(pkt: PacketView, command: u16) -> bool {
    pkt.message_id() == protos::MESSAGE_CUSTOM_CMD && messages::command_of(pkt) == command
}

/// The media configuration came and is ready.
pub open spec fn config_ready(pkt: PacketView, msg: Incoming) -> bool {
    &&& pkt.message_id() == protos::MEDIA_MESSAGE_CONFIG
    &&& msg matches Incoming::Config { config_status, .. } && config_status == ConfigStatus::Ready
}

/// The codec that a setup message for an audio channel names.
pub open spec fn setup_codec(codec: MediaCodec) -> Option<MediaCodec> {
    if codec == MediaCodec::AUDIO_PCM || codec == MediaCodec::AUDIO_AAC_LC {
        Some(codec)
    } else {
        None
    }
}

pub(crate) fn make_open_request(channel: u8, service_id: i32) -> (a: Action)
    ensures
        a == open_request(channel, service_id),
{
    Action::Send {
        channel,
        flags: ENCRYPTED_FULL_CONTROL,
        message: Outgoing::ChannelOpenRequest { priority: 0, service_id },
    }
}

pub(crate) fn make_reply(channel: u8, message: Outgoing) -> (a: Action)
    ensures
        a == reply(channel, message),
{
    Action::Send { channel, flags: ENCRYPTED_FULL, message }
}

pub(crate) fn saw_opened(pkt: &Packet, msg: &Incoming) -> (b: bool)
    requires
        pkt.payload@.len() >= 2,
    ensures
        b == opened(pkt@, *msg),
{
    if pkt.message_id() != protos::MESSAGE_CHANNEL_OPEN_RESPONSE {
        return false;
    }
    match msg {
        Incoming::ChannelOpenResponse { status } => *status == MessageStatus::Success,
        _ => false,
    }
}

pub(crate) fn saw_command(pkt: &Packet, command: u16) -> (b: bool)
    requires
        messages::readable(pkt@),
    ensures
        b == is_command(pkt@, command),
{
    pkt.message_id() == protos::MESSAGE_CUSTOM_CMD && messages::read_command(pkt) == command
}

/// The number of unacknowledged frames that a ready configuration allows.
pub open spec fn max_unacked(msg: Incoming) -> u32 {
    match msg {
        Incoming::Config { max_unacked, .. } => max_unacked,
        _ => 0,
    }
}

/// The configuration of a packet, where it came and is ready: the number of
/// unacknowledged frames that it allows.
pub(crate) fn saw_config_ready(pkt: &Packet, msg: &Incoming) -> (r: Option<u32>)
    requires
        pkt.payload@.len() >= 2,
    ensures
        r is Some <==> config_ready(pkt@, *msg),
        r matches Some(n) ==> n == max_unacked(*msg),
{
    if pkt.message_id() != protos::MEDIA_MESSAGE_CONFIG {
        return None;
    }
    match msg {
        Incoming::Config { config_status, max_unacked } => if *config_status == ConfigStatus::Ready {
            Some(*max_unacked)
        } else {
            None
        },
        _ => None,
    }
}

pub(crate) fn pick_setup_codec(codec: MediaCodec) -> (r: Option<MediaCodec>)
    ensures
        r == setup_codec(codec),
{
    if codec == MediaCodec::AUDIO_PCM || codec == MediaCodec::AUDIO_AAC_LC {
        Some(codec)
    } else {
        None
    }
}

// ---------------------------------------------------------------------------
// Channels that are opened and not used further.

/// What a service does that only opens its channel.
pub open spec fn plain_actions(channel: u8, service_id: i32, pkt: PacketView) -> Seq<Action> {
    if is_command(pkt, protos::CMD_OPEN_CH) {
        seq![open_request(channel, service_id)]
    } else {
        seq![]
    }
}

/// Answers a packet on the channel of a service that is only opened.
pub fn plain_step(channel: u8, service_id: i32, pkt: &Packet) -> (r: Vec<Action>)
    requires
        messages::readable(pkt@),
    ensures
        r@ == plain_actions(channel, service_id, pkt@),
{
    let mut r: Vec<Action> = Vec::new();
    if saw_command(pkt, protos::CMD_OPEN_CH) {
        r.push(make_open_request(channel, service_id));
    }
    assert(r@ =~= plain_actions(channel, service_id, pkt@));
    r
}

#[derive(Clone, Copy, Debug, PartialEq, Eq, Structural)]
pub struct SrvMediaSource {
    pub base: AAService,
}

impl SrvMediaSource {
    pub fn new(sid: i8) -> (r: Self)
        ensures
            r.base == (AAService { sid, srv_type: ServiceType::MediaSource }),
    {
        SrvMediaSource { base: AAService { sid, srv_type: ServiceType::MediaSource } }
    }

    pub fn handle_message(&self, pkt: &Packet) -> (r: Vec<Action>)
        requires
            messages::readable(pkt@),
        ensures
            r@ == plain_actions(self.base.sid as u8, self.base.sid as i32, pkt@),
    {
        plain_step(self.base.sid as u8, self.base.sid as i32, pkt)
    }
}

#[derive(Clone, Copy, Debug, PartialEq, Eq, Structural)]
pub struct SrvVendorExtension {
    pub base: AAService,
}

impl SrvVendorExtension {
    pub fn new(sid: i8) -> (r: Self)
        ensures
            r.base == (AAService { sid, srv_type: ServiceType::VendorExtension }),
    {
        SrvVendorExtension { base: AAService { sid, srv_type: ServiceType::VendorExtension } }
    }

    pub fn handle_message(&self, pkt: &Packet) -> (r: Vec<Action>)
        requires
            messages::readable(pkt@),
        ensures
            r@ == plain_actions(self.base.sid as u8, self.base.sid as i32, pkt@),
    {
        plain_step(self.base.sid as u8, self.base.sid as i32, pkt)
    }
}

#[derive(Clone, Copy, Debug, PartialEq, Eq, Structural)]
pub struct SrvBluetooth {
    pub base: AAService,
}

impl SrvBluetooth {
    pub fn new(sid: i8) -> (r: Self)
        ensures
            r.base == (AAService { sid, srv_type: ServiceType::Bluetooth }),
    {
        SrvBluetooth { base: AAService { sid, srv_type: ServiceType::Bluetooth } }
    }

    pub fn handle_message(&self, pkt: &Packet) -> (r: Vec<Action>)
        requires
            messages::readable(pkt@),
        ensures
            r@ == plain_actions(self.base.sid as u8, self.base.sid as i32, pkt@),
    {
        plain_step(self.base.sid as u8, self.base.sid as i32, pkt)
    }
}

// ---------------------------------------------------------------------------
// Sensors.

/// How often night mode is to be reported, in nanoseconds.
pub const NIGHT_MODE_PERIOD: i64 = 1_000_000_000;

/// The night mode that a sensor batch reports: that of its first sample, off where
/// the sample leaves it out.
pub open spec fn reported_night(pkt: PacketView, msg: Incoming) -> Option<bool> {
    if pkt.message_id() != protos::SENSOR_MESSAGE_BATCH {
        None
    } else {
        match msg {
            Incoming::SensorBatch { night_mode_data } => if night_mode_data@.len() == 0 {
                None
            } else {
                Some(night_mode_data@[0] == Some(true))
            },
            _ => None,
        }
    }
}

/// The night mode after a packet.
pub open spec fn sensor_night(night: bool, pkt: PacketView, msg: Incoming) -> bool {
    match reported_night(pkt, msg) {
        Some(value) => value,
        None => night,
    }
}

/// What the sensor service does: it opens its channel, asks for night mode once the
/// channel is open and the head unit has that sensor, and switches the theme when
/// the reported night mode changes.
pub open spec fn sensor_actions(
    channel: u8,
    service_id: i32,
    sensors: Seq<SensorType>,
    night: bool,
    pkt: PacketView,
    msg: Incoming,
) -> Seq<Action> {
    if is_command(pkt, protos::CMD_OPEN_CH) {
        seq![open_request(channel, service_id)]
    } else if opened(pkt, msg) && sensors.contains(SensorType::SENSOR_NIGHT_MODE) {
        seq![
            reply(
                channel,
                Outgoing::SensorRequest {
                    sensor: SensorType::SENSOR_NIGHT_MODE,
                    min_update_period: NIGHT_MODE_PERIOD,
                },
            ),
        ]
    } else if sensor_night(night, pkt, msg) != night {
        seq![Action::SwitchTheme { night: sensor_night(night, pkt, msg) }]
    } else {
        seq![]
    }
}

fn has_night_mode(sensors: &Vec<SensorType>) -> (b: bool)
    ensures
        b == sensors@.contains(SensorType::SENSOR_NIGHT_MODE),
{
    let mut i: usize = 0;
    while i < sensors.len()
        invariant
            i <= sensors@.len(),
            forall|j: int| 0 <= j < i ==> sensors@[j] != SensorType::SENSOR_NIGHT_MODE,
        decreases sensors@.len() - i,
    {
        if sensors[i] == SensorType::SENSOR_NIGHT_MODE {
            return true;
        }
        i = i + 1;
    }
    false
}

/// Answers a packet on the sensor channel.
pub fn sensor_step(
    channel: u8,
    service_id: i32,
    sensors: &Vec<SensorType>,
    prev_nt_mode: &mut bool,
    pkt: &Packet,
    msg: &Incoming,
) -> (r: Vec<Action>)
    requires
        messages::readable(pkt@),
    ensures
        r@ == sensor_actions(channel, service_id, sensors@, *old(prev_nt_mode), pkt@, *msg),
        *final(prev_nt_mode) == sensor_night(*old(prev_nt_mode), pkt@, *msg),
{
    let mut r: Vec<Action> = Vec::new();
    let id: u16 = pkt.message_id();
    if id == protos::MESSAGE_CHANNEL_OPEN_RESPONSE {
        if saw_opened(pkt, msg) && has_night_mode(sensors) {
            r.push(
                make_reply(
                    channel,
                    Outgoing::SensorRequest {
                        sensor: SensorType::SENSOR_NIGHT_MODE,
                        min_update_period: NIGHT_MODE_PERIOD,
                    },
                ),
            );
        }
    } else if id == protos::SENSOR_MESSAGE_BATCH {
        if let Incoming::SensorBatch { night_mode_data } = msg {
            if night_mode_data.len() > 0 {
                let value: bool = match night_mode_data[0] {
                    Some(v) => v,
                    None => false,
                };
                if value != *prev_nt_mode {
                    *prev_nt_mode = value;
                    r.push(Action::SwitchTheme { night: value });
                }
            }
        }
    } else if saw_command(pkt, protos::CMD_OPEN_CH) {
        r.push(make_open_request(channel, service_id));
    }
    assert(r@ =~= sensor_actions(
        channel,
        service_id,
        sensors@,
        *old(prev_nt_mode),
        pkt@,
        *msg,
    ));
    r
}

/// The sensor service.
#[derive(Debug)]
pub struct SrvSensorSource {
    pub base: AAService,
    pub sensors: Vec<SensorType>,
    pub prev_nt_mode: bool,
}

impl SrvSensorSource {
    pub fn new(sid: i8, sensors: Vec<SensorType>) -> (r: Self)
        ensures
            r.base == (AAService { sid, srv_type: ServiceType::SensorSource }),
            r.sensors == sensors,
            !r.prev_nt_mode,
    {
        SrvSensorSource {
            base: AAService { sid, srv_type: ServiceType::SensorSource },
            sensors,
            prev_nt_mode: false,
        }
    }

    pub fn handle_message(&mut self, pkt: &Packet, msg: &Incoming) -> (r: Vec<Action>)
        requires
            messages::readable(pkt@),
        ensures
            r@ == sensor_actions(
                old(self).base.sid as u8,
                old(self).base.sid as i32,
                old(self).sensors@,
                old(self).prev_nt_mode,
                pkt@,
                *msg,
            ),
            *final(self) == (SrvSensorSource {
                prev_nt_mode: sensor_night(old(self).prev_nt_mode, pkt@, *msg),
                ..*old(self)
            }),
    {
        sensor_step(
            self.base.sid as u8,
            self.base.sid as i32,
            &self.sensors,
            &mut self.prev_nt_mode,
            pkt,
            msg,
        )
    }
}

/// A full queue is no failure; a closed one is, and names the service.
pub proof fn law_only_closed_queues_fail(s: AAService)
    ensures
        s.queue_result(QueueOutcome::Sent) is Ok,
        s.queue_result(QueueOutcome::Full) is Ok,
        s.queue_result(QueueOutcome::Closed) matches Err(e) && e.srv_type == s.srv_type && e.sid
            == s.sid,
{
}

/// What is recorded before the head unit has said anything: pictures of 800 times 480, sixty
/// a second, at four million bits a second, and uncompressed sound for media with two
/// channels of 16 bits. No channel is known, and no frames may be on their way.
pub proof fn law_parameters_at_first()
    ensures
        default_video_params().res_w == 800 && default_video_params().res_h == 480,
        default_video_params().fps == 60 && default_video_params().dpi == 160,
        default_video_params().bitrate == 4_000_000,
        default_video_params().sid == 0 && default_video_params().max_unack == 0,
        default_audio_params().codec == MediaCodec::AUDIO_PCM,
        default_audio_params().bitrate == 4800,
        default_audio_params().sid == 0 && default_audio_params().max_unack == 0,
        default_audio_config().codec == MediaCodec::AUDIO_PCM,
        default_audio_config().stream_type == AudioStream::MEDIA,
        default_audio_config().bitrate == 1_000_000 && default_audio_config().channels == 2
            && default_audio_config().bitdepth == 16,
{
}

} // verus!
