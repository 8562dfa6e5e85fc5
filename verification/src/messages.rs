//! The protocol messages as the services see them: decoded ones that come in,
//! and those to encode that go out.
use vstd::prelude::*;

use crate::aa_services::{
    AudioChConfiguration, AudioStream, MediaCodec, SensorType, VideoCodecResolution, VideoFPS,
};
use crate::channel_manager::{Packet, PacketView, FRAME_TYPE_FULL};
use crate::protos;
use crate::wire;

verus! {

#[derive(Clone, Copy, Debug, PartialEq, Eq, Structural)]
pub enum MessageStatus {
    Success,
    Failure,
}

#[derive(Clone, Copy, Debug, PartialEq, Eq, Structural)]
pub enum ConfigStatus {
    Wait,
    Ready,
}

#[derive(Clone, Copy, Debug, PartialEq, Eq, Structural)]
pub enum VideoFocusMode {
    Projected,
    Native,
    NativeTransient,
    ProjectedNoInputFocus,
}

#[derive(Clone, Copy, Debug, PartialEq, Eq, Structural)]
pub enum AudioFocusState {
    Invalid,
    Gain,
    GainTransient,
    Loss,
    LossTransientCanDuck,
    LossTransient,
    GainMediaOnly,
    GainTransientGuidanceOnly,
}

/// A media sink that the head unit offers.
#[derive(Debug)]
pub struct MediaSinkEntry {
    /// The codec that the sink takes.
    pub available_type: MediaCodec,
    pub audio_type: AudioStream,
    pub audio_configs: Vec<AudioChConfiguration>,
    pub video_configs: Vec<VideoEntry>,
}

/// A picture format that a video sink offers.
#[derive(Clone, Copy, Debug, PartialEq, Eq, Structural)]
pub struct VideoEntry {
    pub codec_resolution: VideoCodecResolution,
    pub frame_rate: VideoFPS,
    pub density: u32,
}

/// One service of the head unit's answer to service discovery.
#[derive(Debug)]
pub struct ServiceEntry {
    pub id: i32,
    pub media_sink: Option<MediaSinkEntry>,
    pub media_source: bool,
    /// The numbers of the sensors, where the service is a sensor source.
    pub sensor_source: Option<Vec<i32>>,
    /// The key codes, where the service is an input source.
    pub input_source: Option<Vec<i32>>,
    pub vendor_extension: bool,
    pub bluetooth: bool,
    pub wifi_projection: bool,
}

/// What the body of a packet from the head unit decodes to.
#[derive(Debug)]
pub enum Incoming {
    /// The body holds no message that was asked for, or was not to be decoded.
    Undecoded,
    ChannelOpenResponse { status: MessageStatus },
    Config { config_status: ConfigStatus, max_unacked: u32 },
    VideoFocusNotification { focus: VideoFocusMode },
    AudioFocusNotification { focus_state: AudioFocusState },
    AudioUnderflowNotification,
    SensorResponse { status: MessageStatus },
    /// The night mode samples of a sensor batch; a sample may leave the value out.
    SensorBatch { night_mode_data: Vec<Option<bool>> },
    KeyBindingResponse,
    AuthResponse { status: MessageStatus },
    ServiceDiscoveryResponse { services: Vec<ServiceEntry> },
    PingRequest { timestamp: i64 },
}

/// The messages that can be decoded.
#[derive(Clone, Copy, Debug, PartialEq, Eq, Structural)]
pub enum IncomingKind {
    ChannelOpenResponse,
    Config,
    VideoFocusNotification,
    AudioFocusNotification,
    AudioUnderflowNotification,
    SensorResponse,
    SensorBatch,
    KeyBindingResponse,
    AuthResponse,
    ServiceDiscoveryResponse,
    PingRequest,
    InputReport,
}

/// Who reads a packet.
#[derive(Clone, Copy, Debug, PartialEq, Eq, Structural)]
pub enum Reader {
    Control,
    Sensor,
    Video,
    AudioStreaming,
    AudioGuidance,
    Input,
    /// A service whose channel is only opened.
    Plain,
    /// The server that passes input on.
    ControlServer,
}

/// The message that a reader decodes from the body behind a number.
pub open spec fn expected_kind(reader: Reader, id: u16) -> Option<IncomingKind> {
    match reader {
        Reader::Control => if id == protos::MESSAGE_AUTH_COMPLETE {
            Some(IncomingKind::AuthResponse)
        } else if id == protos::MESSAGE_SERVICE_DISCOVERY_RESPONSE {
            Some(IncomingKind::ServiceDiscoveryResponse)
        } else if id == protos::MESSAGE_PING_REQUEST {
            Some(IncomingKind::PingRequest)
        } else if id == protos::MESSAGE_AUDIO_FOCUS_NOTIFICATION {
            Some(IncomingKind::AudioFocusNotification)
        } else {
            None
        },
        Reader::ControlServer => if id == protos::INPUT_MESSAGE_INPUT_REPORT {
            Some(IncomingKind::InputReport)
        } else {
            None
        },
        _ => if id == protos::MESSAGE_CHANNEL_OPEN_RESPONSE {
            Some(IncomingKind::ChannelOpenResponse)
        } else {
            match reader {
                Reader::Sensor => if id == protos::SENSOR_MESSAGE_RESPONSE {
                    Some(IncomingKind::SensorResponse)
                } else if id == protos::SENSOR_MESSAGE_BATCH {
                    Some(IncomingKind::SensorBatch)
                } else {
                    None
                },
                Reader::Video => if id == protos::MEDIA_MESSAGE_CONFIG {
                    Some(IncomingKind::Config)
                } else if id == protos::MEDIA_MESSAGE_VIDEO_FOCUS_NOTIFICATION {
                    Some(IncomingKind::VideoFocusNotification)
                } else {
                    None
                },
                Reader::AudioStreaming => if id == protos::MEDIA_MESSAGE_CONFIG {
                    Some(IncomingKind::Config)
                } else if id == protos::MEDIA_MESSAGE_AUDIO_UNDERFLOW_NOTIFICATION {
                    Some(IncomingKind::AudioUnderflowNotification)
                } else if id == protos::MESSAGE_AUDIO_FOCUS_NOTIFICATION {
                    Some(IncomingKind::AudioFocusNotification)
                } else {
                    None
                },
                Reader::AudioGuidance => if id == protos::MEDIA_MESSAGE_CONFIG {
                    Some(IncomingKind::Config)
                } else {
                    None
                },
                Reader::Input => if id == protos::INPUT_MESSAGE_KEY_BINDING_RESPONSE {
                    Some(IncomingKind::KeyBindingResponse)
                } else {
                    None
                },
                _ => None,
            }
        },
    }
}

/// Tells which message a reader decodes from the body behind a number.
pub fn kind_to_decode(reader: Reader, id: u16) -> (r: Option<IncomingKind>)
    ensures
        r == expected_kind(reader, id),
{
    match reader {
        Reader::Control => {
            if id == protos::MESSAGE_AUTH_COMPLETE {
                return Some(IncomingKind::AuthResponse);
            }
            if id == protos::MESSAGE_SERVICE_DISCOVERY_RESPONSE {
                return Some(IncomingKind::ServiceDiscoveryResponse);
            }
            if id == protos::MESSAGE_PING_REQUEST {
                return Some(IncomingKind::PingRequest);
            }
            if id == protos::MESSAGE_AUDIO_FOCUS_NOTIFICATION {
                return Some(IncomingKind::AudioFocusNotification);
            }
            return None;
        },
        Reader::ControlServer => {
            if id == protos::INPUT_MESSAGE_INPUT_REPORT {
                return Some(IncomingKind::InputReport);
            }
            return None;
        },
        _ => {},
    }
    if id == protos::MESSAGE_CHANNEL_OPEN_RESPONSE {
        return Some(IncomingKind::ChannelOpenResponse);
    }
    match reader {
        Reader::Sensor => {
            if id == protos::SENSOR_MESSAGE_RESPONSE {
                return Some(IncomingKind::SensorResponse);
            }
            if id == protos::SENSOR_MESSAGE_BATCH {
                return Some(IncomingKind::SensorBatch);
            }
        },
        Reader::Video => {
            if id == protos::MEDIA_MESSAGE_CONFIG {
                return Some(IncomingKind::Config);
            }
            if id == protos::MEDIA_MESSAGE_VIDEO_FOCUS_NOTIFICATION {
                return Some(IncomingKind::VideoFocusNotification);
            }
        },
        Reader::AudioStreaming => {
            if id == protos::MEDIA_MESSAGE_CONFIG {
                return Some(IncomingKind::Config);
            }
            if id == protos::MEDIA_MESSAGE_AUDIO_UNDERFLOW_NOTIFICATION {
                return Some(IncomingKind::AudioUnderflowNotification);
            }
            if id == protos::MESSAGE_AUDIO_FOCUS_NOTIFICATION {
                return Some(IncomingKind::AudioFocusNotification);
            }
        },
        Reader::AudioGuidance => {
            if id == protos::MEDIA_MESSAGE_CONFIG {
                return Some(IncomingKind::Config);
            }
        },
        Reader::Input => {
            if id == protos::INPUT_MESSAGE_KEY_BINDING_RESPONSE {
                return Some(IncomingKind::KeyBindingResponse);
            }
        },
        _ => {},
    }
    None
}

/// How this program names itself to the head unit.
pub const LABEL_TEXT: &'static str = "aa-mirror-rs";

/// How this device names itself to the head unit.
pub const DEVICE_NAME: &'static str = "aa-mirror-os";

/// A message to the head unit whose body is encoded outside.
#[derive(Clone, Copy, Debug, PartialEq, Eq, Structural)]
pub enum Outgoing {
    ChannelOpenRequest { priority: i32, service_id: i32 },
    SensorRequest { sensor: SensorType, min_update_period: i64 },
    /// The codec stays unset where none fits.
    Setup { codec: Option<MediaCodec> },
    Start { session_id: i32, configuration_index: u32 },
    Stop,
    /// Asks for the key codes of the input service.
    KeyBindingRequest,
    ServiceDiscoveryRequest,
    /// Asks to gain the audio focus.
    AudioFocusRequest,
    PingResponse { timestamp: i64 },
}

/// The number that stands in front of the message's body.
pub open spec fn outgoing_id(message: Outgoing) -> u16 {
    match message {
        Outgoing::ChannelOpenRequest { .. } => protos::MESSAGE_CHANNEL_OPEN_REQUEST,
        Outgoing::SensorRequest { .. } => protos::SENSOR_MESSAGE_REQUEST,
        Outgoing::Setup { .. } => protos::MEDIA_MESSAGE_SETUP,
        Outgoing::Start { .. } => protos::MEDIA_MESSAGE_START,
        Outgoing::Stop => protos::MEDIA_MESSAGE_STOP,
        Outgoing::KeyBindingRequest => protos::INPUT_MESSAGE_KEY_BINDING_REQUEST,
        Outgoing::ServiceDiscoveryRequest => protos::MESSAGE_SERVICE_DISCOVERY_REQUEST,
        Outgoing::AudioFocusRequest => protos::MESSAGE_AUDIO_FOCUS_REQUEST,
        Outgoing::PingResponse { .. } => protos::MESSAGE_PING_RESPONSE,
    }
}

impl Outgoing {
    pub fn message_id(&self) -> (id: u16)
        ensures
            id == outgoing_id(*self),
    {
        match self {
            Outgoing::ChannelOpenRequest { .. } => protos::MESSAGE_CHANNEL_OPEN_REQUEST,
            Outgoing::SensorRequest { .. } => protos::SENSOR_MESSAGE_REQUEST,
            Outgoing::Setup { .. } => protos::MEDIA_MESSAGE_SETUP,
            Outgoing::Start { .. } => protos::MEDIA_MESSAGE_START,
            Outgoing::Stop => protos::MEDIA_MESSAGE_STOP,
            Outgoing::KeyBindingRequest => protos::INPUT_MESSAGE_KEY_BINDING_REQUEST,
            Outgoing::ServiceDiscoveryRequest => protos::MESSAGE_SERVICE_DISCOVERY_REQUEST,
            Outgoing::AudioFocusRequest => protos::MESSAGE_AUDIO_FOCUS_REQUEST,
            Outgoing::PingResponse { .. } => protos::MESSAGE_PING_RESPONSE,
        }
    }
}

/// The packet of a message that fits one frame.
pub open spec fn message_packet(channel: u8, flags: u8, id: u16, body: Seq<u8>) -> PacketView {
    PacketView { channel, flags, final_length: None, payload: wire::be16(id) + body }
}

/// The packet of a command between the parts of this program.
pub open spec fn command_packet(channel: u8, command: u16, data: Seq<u8>) -> PacketView {
    message_packet(
        channel,
        FRAME_TYPE_FULL,
        protos::MESSAGE_CUSTOM_CMD,
        wire::be16(command) + data,
    )
}

/// Puts the number of a message in front of its encoded body.
pub fn compose(channel: u8, flags: u8, id: u16, body: &[u8]) -> (pkt: Packet)
    ensures
        pkt@ == message_packet(channel, flags, id, body@),
{
    let mut payload: Vec<u8> = Vec::new();
    wire::push_be16(&mut payload, id);
    payload.extend_from_slice(body);
    assert(payload@ =~= wire::be16(id) + body@);
    Packet { channel, flags, final_length: None, payload }
}

/// The packet of a message whose body has been encoded.
pub fn seal(channel: u8, flags: u8, message: &Outgoing, body: &[u8]) -> (pkt: Packet)
    ensures
        pkt@ == message_packet(channel, flags, outgoing_id(*message), body@),
{
    compose(channel, flags, message.message_id(), body)
}

/// The packet of a command between the parts of this program.
pub fn compose_command(channel: u8, command: u16, data: &[u8]) -> (pkt: Packet)
    ensures
        pkt@ == command_packet(channel, command, data@),
{
    let mut body: Vec<u8> = Vec::new();
    wire::push_be16(&mut body, command);
    body.extend_from_slice(data);
    assert(body@ =~= wire::be16(command) + data@);
    compose(channel, FRAME_TYPE_FULL, protos::MESSAGE_CUSTOM_CMD, body.as_slice())
}

/// A composed message is read back: its number is the one it was composed with, and
/// its body follows the number.
pub proof fn law_message_round_trip(channel: u8, flags: u8, id: u16, body: Seq<u8>)
    ensures
        message_packet(channel, flags, id, body).message_id() == id,
        message_packet(channel, flags, id, body).payload.skip(2) == body,
{
    let p = message_packet(channel, flags, id, body);
    wire::law_be16_round_trip(Seq::<u8>::empty(), id, body);
    assert(p.payload =~= Seq::<u8>::empty() + wire::be16(id) + body);
    assert(p.payload.skip(2) =~= body);
}

/// A composed command is read back with its number and its data.
pub proof fn law_command_round_trip(channel: u8, command: u16, data: Seq<u8>)
    ensures
        command_packet(channel, command, data).message_id() == protos::MESSAGE_CUSTOM_CMD,
        command_of(command_packet(channel, command, data)) == command,
        command_packet(channel, command, data).payload.skip(4) == data,
{
    let p = command_packet(channel, command, data);
    let head = wire::be16(protos::MESSAGE_CUSTOM_CMD);
    assert(p.message_id() == protos::MESSAGE_CUSTOM_CMD) by {
        law_message_round_trip(
            channel,
            FRAME_TYPE_FULL,
            protos::MESSAGE_CUSTOM_CMD,
            wire::be16(command) + data,
        );
    }
    assert(p.payload =~= head + wire::be16(command) + data);
    assert(command_of(p) == command) by {
        wire::law_be16_round_trip(head, command, data);
    }
    assert(p.payload.skip(4) =~= data);
}

/// The command that the third and fourth byte of a payload hold.
pub open spec fn command_of(p: PacketView) -> u16 {
    wire::be16_at(p.payload, 2)
}

/// Whether a handler can look at the packet: the number of the message is there,
/// and that of the command where the message is one.
pub open spec fn readable(p: PacketView) -> bool {
    &&& p.payload.len() >= 2
    &&& p.message_id() == protos::MESSAGE_CUSTOM_CMD ==> p.payload.len() >= 4
}

/// The command that the third and fourth byte of the payload hold.
pub fn read_command(pkt: &Packet) -> (command: u16)
    requires
        pkt.payload@.len() >= 4,
    ensures
        command == command_of(pkt@),
{
    wire::read_be16(pkt.payload.as_slice(), 2)
}

/// Tests whether a handler can look at the packet.
pub fn is_readable(pkt: &Packet) -> (b: bool)
    ensures
        b == readable(pkt@),
{
    pkt.payload.len() >= 2 && (pkt.message_id() != protos::MESSAGE_CUSTOM_CMD
        || pkt.payload.len() >= 4)
}

} // verus!
