//! What passes through the gateway, told by the bytes of packets and frames.
use vstd::prelude::*;

use crate::aa_services::AAMessageType;
use crate::channel_manager;
use crate::channel_manager::PacketView;
use crate::config::{AppConfig, HexdumpLevel};
use crate::messages;
use crate::messages::{IncomingKind, Outgoing, Reader, ServiceEntry};
use crate::packet_hooks;
use crate::packet_hooks::{DebugBody, MessageKind, ModifyTarget};
use crate::protos;
use crate::tls_proxy;
use crate::wire;

verus! {

// ---------------------------------------------------------------------------
// Numbers.

/// The numbers of the messages on the control channel.
pub proof fn law_control_numbers()
    ensures
        protos::MESSAGE_VERSION_REQUEST == 1,
        protos::MESSAGE_VERSION_RESPONSE == 2,
        protos::MESSAGE_ENCAPSULATED_SSL == 3,
        protos::MESSAGE_AUTH_COMPLETE == 4,
        protos::MESSAGE_SERVICE_DISCOVERY_REQUEST == 5,
        protos::MESSAGE_SERVICE_DISCOVERY_RESPONSE == 6,
        protos::MESSAGE_CHANNEL_OPEN_REQUEST == 7,
        protos::MESSAGE_CHANNEL_OPEN_RESPONSE == 8,
        protos::MESSAGE_PING_REQUEST == 11,
        protos::MESSAGE_PING_RESPONSE == 12,
        protos::MESSAGE_NAV_FOCUS_REQUEST == 13,
        protos::MESSAGE_BYEBYE_REQUEST == 15,
        protos::MESSAGE_BYEBYE_RESPONSE == 16,
        protos::MESSAGE_AUDIO_FOCUS_REQUEST == 18,
        protos::MESSAGE_AUDIO_FOCUS_NOTIFICATION == 19,
        protos::MESSAGE_UNEXPECTED_MESSAGE == 255,
        protos::STATUS_SUCCESS == 0,
{
}

/// The numbers of the messages on media, sensor and input channels.
pub proof fn law_service_numbers()
    ensures
        protos::MEDIA_MESSAGE_DATA == 0,
        protos::MEDIA_MESSAGE_CODEC_CONFIG == 1,
        protos::MEDIA_MESSAGE_SETUP == 0x8000,
        protos::MEDIA_MESSAGE_START == 0x8001,
        protos::MEDIA_MESSAGE_STOP == 0x8002,
        protos::MEDIA_MESSAGE_CONFIG == 0x8003,
        protos::MEDIA_MESSAGE_ACK == 0x8004,
        protos::MEDIA_MESSAGE_VIDEO_FOCUS_REQUEST == 0x8007,
        protos::MEDIA_MESSAGE_VIDEO_FOCUS_NOTIFICATION == 0x8008,
        protos::MEDIA_MESSAGE_AUDIO_UNDERFLOW_NOTIFICATION == 0x800B,
        protos::SENSOR_MESSAGE_REQUEST == 0x8001,
        protos::SENSOR_MESSAGE_RESPONSE == 0x8002,
        protos::SENSOR_MESSAGE_BATCH == 0x8003,
        protos::SENSOR_MESSAGE_ERROR == 0x8004,
        protos::INPUT_MESSAGE_INPUT_REPORT == 0x8001,
        protos::INPUT_MESSAGE_KEY_BINDING_REQUEST == 0x8002,
        protos::INPUT_MESSAGE_KEY_BINDING_RESPONSE == 0x8003,
        protos::KEYCODE_ROTARY_CONTROLLER == 65536,
{
}

/// The numbers of the commands between the parts of this program.
pub proof fn law_command_numbers()
    ensures
        protos::MESSAGE_CUSTOM_CMD == 0xF000,
        protos::CANCEL == 0,
        protos::CMD_OPEN_CH == 1,
        protos::CMD_SETUP_CH == 2,
        protos::CMD_START_VIDEO_RECORDING == 3,
        protos::CMD_PAUSE_VIDEO_RECORDING == 4,
        protos::CMD_RESUME_VIDEO_RECORDING == 5,
        protos::CMD_START_AUDIO_RECORDING == 6,
        protos::CMD_PAUSE_AUDIO_RECORDING == 7,
        protos::CMD_RESUME_AUDIO_RECORDING == 8,
        protos::CMD_START_CONTROL_SERVER == 9,
        protos::MD_DISCONNECTED == 10,
{
}

/// The bits of the flags of a frame: first 1, last 2, control 4, encrypted 8.
pub proof fn law_flag_bits()
    ensures
        channel_manager::FRAME_TYPE_FIRST == 1,
        channel_manager::FRAME_TYPE_LAST == 2,
        channel_manager::FRAME_TYPE_MASK == 3,
        channel_manager::FRAME_TYPE_CONTROL == 4,
        channel_manager::ENCRYPTED == 8,
        channel_manager::FRAME_TYPE_FULL == 1 + 2,
        channel_manager::ENCRYPTED_FULL == 8 + 1 + 2,
        channel_manager::ENCRYPTED_FULL_CONTROL == 8 + 4 + 1 + 2,
        channel_manager::HEADER_LENGTH == 4,
{
}

/// The number in front of every message that is sent, and no two kinds of message on one
/// kind of channel have the same.
pub proof fn law_sent_messages_have_their_number(m: Outgoing)
    ensures
        m is ServiceDiscoveryRequest ==> messages::outgoing_id(m) == 5,
        m is ChannelOpenRequest ==> messages::outgoing_id(m) == 7,
        m is PingResponse ==> messages::outgoing_id(m) == 12,
        m is AudioFocusRequest ==> messages::outgoing_id(m) == 18,
        m is Setup ==> messages::outgoing_id(m) == 0x8000,
        m is Start ==> messages::outgoing_id(m) == 0x8001,
        m is Stop ==> messages::outgoing_id(m) == 0x8002,
        m is SensorRequest ==> messages::outgoing_id(m) == 0x8001,
        m is KeyBindingRequest ==> messages::outgoing_id(m) == 0x8002,
{
}

/// Which message is decoded from the body behind a number. All services read the consent to
/// open their channel (8); beyond that each reads its own.
pub proof fn law_messages_are_decoded_by_number(reader: Reader, id: u16)
    ensures
        ({
            let kind = messages::expected_kind(reader, id);
            let service = reader != Reader::Control && reader != Reader::ControlServer;
            &&& service && id == 8 ==> kind == Some(IncomingKind::ChannelOpenResponse)
            &&& reader == Reader::Control && id == 4 ==> kind == Some(IncomingKind::AuthResponse)
            &&& reader == Reader::Control && id == 6 ==> kind == Some(
                IncomingKind::ServiceDiscoveryResponse,
            )
            &&& reader == Reader::Control && id == 11 ==> kind == Some(IncomingKind::PingRequest)
            &&& reader == Reader::Control && id == 19 ==> kind == Some(
                IncomingKind::AudioFocusNotification,
            )
            &&& reader == Reader::Control && id != 4 && id != 6 && id != 11 && id != 19 ==> kind
                is None
            &&& reader == Reader::ControlServer && id == 0x8001 ==> kind == Some(
                IncomingKind::InputReport,
            )
            &&& reader == Reader::ControlServer && id != 0x8001 ==> kind is None
            &&& reader == Reader::Sensor && id == 0x8002 ==> kind == Some(
                IncomingKind::SensorResponse,
            )
            &&& reader == Reader::Sensor && id == 0x8003 ==> kind == Some(
                IncomingKind::SensorBatch,
            )
            &&& reader == Reader::Sensor && id != 8 && id != 0x8002 && id != 0x8003 ==> kind
                is None
            &&& reader == Reader::Video && id == 0x8003 ==> kind == Some(IncomingKind::Config)
            &&& reader == Reader::Video && id == 0x8008 ==> kind == Some(
                IncomingKind::VideoFocusNotification,
            )
            &&& reader == Reader::Video && id != 8 && id != 0x8003 && id != 0x8008 ==> kind is None
            &&& reader == Reader::AudioStreaming && id == 0x8003 ==> kind == Some(
                IncomingKind::Config,
            )
            &&& reader == Reader::AudioStreaming && id == 0x800B ==> kind == Some(
                IncomingKind::AudioUnderflowNotification,
            )
            &&& reader == Reader::AudioStreaming && id == 19 ==> kind == Some(
                IncomingKind::AudioFocusNotification,
            )
            &&& reader == Reader::AudioStreaming && id != 8 && id != 0x8003 && id != 0x800B && id
                != 19 ==> kind is None
            &&& reader == Reader::AudioGuidance && id == 0x8003 ==> kind == Some(
                IncomingKind::Config,
            )
            &&& reader == Reader::AudioGuidance && id != 8 && id != 0x8003 ==> kind is None
            &&& reader == Reader::Input && id == 0x8003 ==> kind == Some(
                IncomingKind::KeyBindingResponse,
            )
            &&& reader == Reader::Input && id != 8 && id != 0x8003 ==> kind is None
            &&& reader == Reader::Plain && id != 8 ==> kind is None
        }),
{
}

// ---------------------------------------------------------------------------
// Frames.

proof fn lemma_first_flag(flags: u8)
    ensures
        channel_manager::opens_message(flags) <==> flags % 4 == 1,
{
    assert(flags & 3 == flags % 4) by (bit_vector);
}

/// A frame, by its bytes: the channel, the flags, two bytes for the length of the payload,
/// four for the total length where there is one, then the payload.
pub proof fn law_frame_by_its_bytes(p: PacketView)
    requires
        p.payload.len() <= 0xFFFF,
    ensures
        ({
            let f = channel_manager::frame_bytes(p);
            let head: int = if p.final_length is Some {
                8
            } else {
                4
            };
            &&& f.len() == head + p.payload.len()
            &&& f[0] == p.channel
            &&& f[1] == p.flags
            &&& f[2] * 256 + f[3] == p.payload.len()
            &&& p.final_length matches Some(n) ==> f[4] * 0x100_0000 + f[5] * 0x1_0000 + f[6] * 0x100
                + f[7] == n
            &&& f.skip(head) == p.payload
        }),
{
    let f = channel_manager::frame_bytes(p);
    match p.final_length {
        Some(n) => {
            wire::law_bytes_have_their_weight(0, n, 0);
            assert(f[4] == wire::be32(n)[0] && f[5] == wire::be32(n)[1] && f[6] == wire::be32(n)[2]
                && f[7] == wire::be32(n)[3]);
            assert(f.skip(8) =~= p.payload);
        },
        None => {
            assert(f.skip(4) =~= p.payload);
        },
    }
}

/// What is read from a frame, by its bytes. It has a total length exactly where its flags say
/// first and not last, whatever its channel and its other flags are.
pub proof fn law_packet_by_the_bytes_of_its_frame(s: Seq<u8>)
    requires
        s.len() >= 4,
    ensures
        ({
            let p = channel_manager::first_packet(s);
            let head: int = if s[1] % 4 == 1 {
                8
            } else {
                4
            };
            let size = head + s[2] * 256 + s[3];
            &&& channel_manager::has_frame(s) <==> s.len() >= size
            &&& channel_manager::frame_size(s) == size
            &&& p.channel == s[0]
            &&& p.flags == s[1]
            &&& s[1] % 4 == 1 ==> p.final_length == Some(
                (s[4] * 0x100_0000 + s[5] * 0x1_0000 + s[6] * 0x100 + s[7]) as u32,
            )
            &&& s[1] % 4 != 1 ==> p.final_length is None
            &&& channel_manager::has_frame(s) ==> p.payload == s.subrange(head, size)
        }),
{
    lemma_first_flag(s[1]);
    wire::law_read_bytes_have_their_weight(s, 4);
}

/// Whole frames at the start of a stream are taken off one after the other, and what begins
/// no whole frame stays.
pub proof fn law_frames_are_taken_in_order(s: Seq<u8>)
    ensures
        s.len() < 4 ==> channel_manager::packets_in(s).len() == 0 && channel_manager::unfinished(s)
            == s,
        s.len() >= 4 ==> ({
            let size = (if s[1] % 4 == 1 {
                8int
            } else {
                4
            }) + s[2] * 256 + s[3];
            &&& s.len() < size ==> channel_manager::packets_in(s).len() == 0
                && channel_manager::unfinished(s) == s
            &&& s.len() >= size ==> channel_manager::packets_in(s).len() > 0
                && channel_manager::packets_in(s)[0] == channel_manager::first_packet(s)
                && channel_manager::packets_in(s).skip(1) == channel_manager::packets_in(
                s.skip(size),
            ) && channel_manager::unfinished(s) == channel_manager::unfinished(s.skip(size))
        }),
{
    if s.len() >= 4 {
        law_packet_by_the_bytes_of_its_frame(s);
        if channel_manager::has_frame(s) {
            let rest = channel_manager::packets_in(s.skip(channel_manager::frame_size(s) as int));
            assert(channel_manager::packets_in(s).skip(1) =~= rest);
        }
    }
}

/// A message and a command, by their bytes.
pub proof fn law_messages_by_their_bytes(
    channel: u8,
    flags: u8,
    id: u16,
    command: u16,
    body: Seq<u8>,
)
    ensures
        ({
            let m = messages::message_packet(channel, flags, id, body);
            &&& m.channel == channel && m.flags == flags && m.final_length is None
            &&& m.payload.len() == body.len() + 2
            &&& m.payload[0] * 256 + m.payload[1] == id
            &&& m.payload.skip(2) == body
        }),
        ({
            let c = messages::command_packet(channel, command, body);
            &&& c.channel == channel && c.flags == 3 && c.final_length is None
            &&& c.payload.len() == body.len() + 4
            &&& c.payload[0] == 0xF0 && c.payload[1] == 0
            &&& c.payload[2] * 256 + c.payload[3] == command
            &&& c.payload.skip(4) == body
        }),
{
    messages::law_message_round_trip(channel, flags, id, body);
    messages::law_command_round_trip(channel, command, body);
}

/// A packet can be looked at where its number is there, and for F0 00 the command, too; the
/// number and the command are the first two pairs of bytes.
pub proof fn law_readable_packets(p: PacketView)
    ensures
        messages::readable(p) <==> p.payload.len() >= 2 && (p.payload[0] == 0xF0 && p.payload[1]
            == 0 ==> p.payload.len() >= 4),
        p.payload.len() >= 2 ==> p.message_id() == p.payload[0] * 256 + p.payload[1],
        p.payload.len() >= 4 ==> messages::command_of(p) == p.payload[2] * 256 + p.payload[3],
{
}

/// A handshake packet, by its bytes: on channel 0, plain, in one frame, the bytes 00 03 and
/// the data.
pub proof fn law_handshake_packet_by_its_bytes(data: Seq<u8>)
    ensures
        ({
            let p = channel_manager::ssl_packet(data);
            &&& p.channel == 0 && p.flags == 3 && p.final_length is None
            &&& p.payload.len() == data.len() + 2
            &&& p.payload[0] == 0 && p.payload[1] == 3
            &&& p.payload.skip(2) == data
        }),
{
    channel_manager::law_ssl_data_arrives(data);
}

/// Only the fourth bit of the flags makes a packet encrypted; an encrypted payload is
/// replaced, a plain one never is, and all else of the packet stays.
pub proof fn law_only_encrypted_payloads_are_replaced(p: PacketView, bytes: Seq<u8>)
    ensures
        p.flags & 8 != 0 ==> channel_manager::sealed_packet(p, bytes).payload == bytes
            && channel_manager::opened_packet(p, bytes).payload == bytes,
        p.flags & 8 == 0 ==> channel_manager::sealed_packet(p, bytes) == p
            && channel_manager::opened_packet(p, bytes) == p,
        channel_manager::sealed_packet(p, bytes) == (PacketView {
            payload: channel_manager::sealed_packet(p, bytes).payload,
            ..p
        }),
        channel_manager::opened_packet(p, bytes) == (PacketView {
            payload: channel_manager::opened_packet(p, bytes).payload,
            ..p
        }),
{
}

// ---------------------------------------------------------------------------
// Changed packets.

/// Which messages of the head unit are rewritten: its list of services (00 06 on a control
/// channel) where a development head unit or another density is configured, and batches of
/// sensor data (80 03 on a sensor channel) where the vehicle is to seem parked. Nothing else
/// is, and what follows the number does not count.
pub proof fn law_rewritten_messages(cfg: AppConfig, p: PacketView, kind: AAMessageType)
    requires
        p.payload.len() >= 2,
    ensures
        ({
            let target = packet_hooks::modify_target(cfg, p, kind);
            let list = kind == AAMessageType::Control && p.payload[0] == 0 && p.payload[1] == 6;
            let batch = kind == AAMessageType::Sensor && p.payload[0] == 0x80 && p.payload[1] == 3;
            &&& list && (cfg.developer_mode || cfg.dpi > 0) ==> target
                == ModifyTarget::ServiceDiscovery
            &&& list && !cfg.developer_mode && cfg.dpi == 0 ==> target == ModifyTarget::Nothing
            &&& batch && cfg.park_mode ==> target == ModifyTarget::SensorBatch
            &&& batch && !cfg.park_mode ==> target == ModifyTarget::Nothing
            &&& !list && !batch ==> target == ModifyTarget::Nothing
        }),
{
}

/// What is sent in place of a packet: the same number, then the new body where there is one
/// and the message is to be rewritten; everything else of the packet stays.
pub proof fn law_rewritten_packets(
    p: PacketView,
    target: ModifyTarget,
    edited: Option<Seq<u8>>,
)
    requires
        p.payload.len() >= 2,
    ensures
        ({
            let q = packet_hooks::hooked(p, target, edited);
            &&& q.channel == p.channel && q.flags == p.flags && q.final_length == p.final_length
            &&& q.payload.len() >= 2 && q.payload[0] == p.payload[0] && q.payload[1] == p.payload[1]
            &&& target != ModifyTarget::Nothing && edited is Some ==> q.payload.skip(2)
                == edited->0
            &&& target == ModifyTarget::Nothing || edited is None ==> q == p
        }),
{
    let q = packet_hooks::hooked(p, target, edited);
    if target != ModifyTarget::Nothing && edited is Some {
        assert(q.payload.skip(2) =~= edited->0);
    }
}

/// The kind of a channel by the entry that opens it.
pub proof fn law_channel_kinds(e: ServiceEntry)
    ensures
        ({
            let kind = tls_proxy::channel_kind(e);
            let sink = e.media_sink is Some;
            let sensor = e.sensor_source is Some;
            let input = e.input_source is Some;
            &&& sink ==> kind == Some(AAMessageType::Media)
            &&& !sink && sensor ==> kind == Some(AAMessageType::Sensor)
            &&& !sink && !sensor && e.media_source ==> kind == Some(AAMessageType::Media)
            &&& !sink && !sensor && !e.media_source && input ==> kind == Some(AAMessageType::Input)
            &&& !sink && !sensor && !e.media_source && !input && e.bluetooth ==> kind == Some(
                AAMessageType::Bluetooth,
            )
            &&& !sink && !sensor && !e.media_source && !input && !e.bluetooth
                && e.vendor_extension ==> kind == Some(AAMessageType::VendorExtension)
            &&& !sink && !sensor && !e.media_source && !input && !e.bluetooth
                && !e.vendor_extension && e.wifi_projection ==> kind == Some(
                AAMessageType::WiFiProjection,
            )
            &&& !sink && !sensor && !e.media_source && !input && !e.bluetooth
                && !e.vendor_extension && !e.wifi_projection ==> kind is None
        }),
{
}

/// Kinds are learned from the list of services alone, which is the message 00 06 on channel
/// 0. An entry changes the kind of its own channel and of no other; a channel of which
/// nothing is known is of no known kind.
pub proof fn law_kinds_are_learned_from_the_list(
    kinds: Map<i32, AAMessageType>,
    entries: Seq<ServiceEntry>,
    n: int,
    channel: u8,
    p: PacketView,
)
    requires
        0 < n <= entries.len(),
        p.payload.len() >= 2,
    ensures
        tls_proxy::is_service_list(p) <==> p.channel == 0 && p.payload[0] == 0 && p.payload[1] == 6,
        entries[n - 1].id != channel ==> tls_proxy::kind_of(
            tls_proxy::kinds_after(kinds, entries, n),
            channel,
        ) == tls_proxy::kind_of(tls_proxy::kinds_after(kinds, entries, n - 1), channel),
        entries[n - 1].id == channel && tls_proxy::channel_kind(entries[n - 1]) is Some
            ==> tls_proxy::kind_of(tls_proxy::kinds_after(kinds, entries, n), channel)
            == tls_proxy::channel_kind(entries[n - 1])->0,
        tls_proxy::kinds_after(kinds, entries, 0) == kinds,
        !kinds.contains_key(channel as i32) ==> tls_proxy::kind_of(kinds, channel)
            == AAMessageType::Unknown,
        kinds.contains_key(channel as i32) ==> tls_proxy::kind_of(kinds, channel)
            == kinds[channel as i32],
{
}

// ---------------------------------------------------------------------------
// The log.

/// Which message of the control channel is shown, by its number.
pub proof fn law_shown_control_messages(id: u16)
    ensures
        packet_hooks::control_kind(1) == Some(MessageKind::VersionRequest),
        packet_hooks::control_kind(4) == Some(MessageKind::AuthResponse),
        packet_hooks::control_kind(5) == Some(MessageKind::ServiceDiscoveryRequest),
        packet_hooks::control_kind(6) == Some(MessageKind::ServiceDiscoveryResponse),
        packet_hooks::control_kind(7) == Some(MessageKind::ChannelOpenRequest),
        packet_hooks::control_kind(8) == Some(MessageKind::ChannelOpenResponse),
        packet_hooks::control_kind(11) == Some(MessageKind::PingRequest),
        packet_hooks::control_kind(12) == Some(MessageKind::PingResponse),
        packet_hooks::control_kind(13) == Some(MessageKind::NavFocusRequestNotification),
        packet_hooks::control_kind(15) == Some(MessageKind::ByeByeRequest),
        packet_hooks::control_kind(16) == Some(MessageKind::ByeByeResponse),
        packet_hooks::control_kind(18) == Some(MessageKind::AudioFocusRequestNotification),
        packet_hooks::control_kind(19) == Some(MessageKind::AudioFocusNotification),
        packet_hooks::control_kind(id) is Some ==> id == 1 || 4 <= id <= 8 || 11 <= id <= 13 || 15
            <= id <= 16 || 18 <= id <= 19,
{
}

/// Which message is shown as it passes: on control channels all that are known but pings, on
/// media and sensor channels those of their own numbers; channels of other kinds are of no
/// known type.
pub proof fn law_shown_passing_messages(kind: AAMessageType, id: u16)
    ensures
        ({
            let body = packet_hooks::shown_body(kind, id);
            let control = kind == AAMessageType::Control;
            let media = kind == AAMessageType::Media;
            let sensor = kind == AAMessageType::Sensor;
            &&& !control && !media && !sensor ==> body == DebugBody::UnknownType
            &&& control && (id == 11 || id == 12) ==> body == DebugBody::Nothing
            &&& control && id != 11 && id != 12 && packet_hooks::control_kind(id) is Some ==> body
                == (DebugBody::Message { kind: packet_hooks::control_kind(id)->0 })
            &&& control && packet_hooks::control_kind(id) is None ==> body == DebugBody::Nothing
            &&& media && id == 0x8000 ==> body == (DebugBody::Message { kind: MessageKind::Setup })
            &&& media && id == 0x8001 ==> body == (DebugBody::Message { kind: MessageKind::Start })
            &&& media && id == 0x8003 ==> body == (DebugBody::Message { kind: MessageKind::Config })
            &&& media && id == 0x8007 ==> body == (DebugBody::Message {
                kind: MessageKind::VideoFocusRequestNotification,
            })
            &&& media && id == 0x8008 ==> body == (DebugBody::Message {
                kind: MessageKind::VideoFocusNotification,
            })
            &&& media && id != 0x8000 && id != 0x8001 && id != 0x8003 && id != 0x8007 && id
                != 0x8008 ==> body == DebugBody::Nothing
            &&& sensor && id == 0x8001 ==> body == (DebugBody::Message {
                kind: MessageKind::SensorRequest,
            })
            &&& sensor && id == 0x8002 ==> body == (DebugBody::Message {
                kind: MessageKind::SensorResponse,
            })
            &&& sensor && id == 0x8003 ==> body == (DebugBody::Message {
                kind: MessageKind::SensorBatch,
            })
            &&& sensor && id == 0x8004 ==> body == (DebugBody::Message {
                kind: MessageKind::SensorError,
            })
            &&& sensor && (id < 0x8001 || id > 0x8004) ==> body == DebugBody::Nothing
        }),
{
}

/// Every level of dumps includes itself and those before it, the highest all, and the lowest
/// none but itself.
pub proof fn law_levels_include_those_before(level: HexdumpLevel)
    ensures
        HexdumpLevel::All.rank() >= level.rank(),
        level.rank() >= HexdumpLevel::Disabled.rank(),
        level.rank() == HexdumpLevel::Disabled.rank() ==> level == HexdumpLevel::Disabled,
        HexdumpLevel::DecryptedInput.rank() < HexdumpLevel::RawInput.rank(),
        HexdumpLevel::RawInput.rank() < HexdumpLevel::DecryptedOutput.rank(),
        HexdumpLevel::DecryptedOutput.rank() < HexdumpLevel::RawOutput.rank(),
        HexdumpLevel::RawOutput.rank() < HexdumpLevel::All.rank(),
{
}

} // verus!
