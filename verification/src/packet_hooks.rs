//! What the gateway changes in the packets that it looks into, and which messages it
//! can show.
use vstd::prelude::*;

use crate::aa_services::AAMessageType;
use crate::channel_manager::{Packet, PacketView};
use crate::config::{AppConfig, HexdumpLevel};
use crate::protos;
use crate::text;
use crate::text_laws;
use crate::text::{push_hex, push_text};
use crate::wire;

verus! {

// ---------------------------------------------------------------------------
// Changes.

/// The message whose body the gateway rewrites.
#[derive(Clone, Copy, Debug, PartialEq, Eq, Structural)]
pub enum ModifyTarget {
    Nothing,
    ServiceDiscovery,
    SensorBatch,
}

/// Which rewriting a packet of that kind of channel needs.
pub open spec fn modify_target(cfg: AppConfig, p: PacketView, kind: AAMessageType) -> ModifyTarget {
    if kind == AAMessageType::Control && p.message_id()
        == protos::MESSAGE_SERVICE_DISCOVERY_RESPONSE && (cfg.developer_mode || cfg.dpi > 0) {
        ModifyTarget::ServiceDiscovery
    } else if kind == AAMessageType::Sensor && p.message_id() == protos::SENSOR_MESSAGE_BATCH
        && cfg.park_mode {
        ModifyTarget::SensorBatch
    } else {
        ModifyTarget::Nothing
    }
}

/// Decides which rewriting a packet of that kind of channel needs.
pub fn pkt_modify_hook(cfg: &AppConfig, pkt: &Packet, kind: AAMessageType) -> (r: ModifyTarget)
    requires
        kind == AAMessageType::Control || kind == AAMessageType::Sensor ==> pkt.payload@.len() >= 2,
    ensures
        r == modify_target(*cfg, pkt@, kind),
{
    if kind == AAMessageType::Control {
        if pkt.message_id() == protos::MESSAGE_SERVICE_DISCOVERY_RESPONSE && (cfg.developer_mode
            || cfg.dpi > 0) {
            return ModifyTarget::ServiceDiscovery;
        }
    } else if kind == AAMessageType::Sensor {
        if pkt.message_id() == protos::SENSOR_MESSAGE_BATCH && cfg.park_mode {
            return ModifyTarget::SensorBatch;
        }
    }
    ModifyTarget::Nothing
}

/// The packet with a new body behind the number of its message.
pub open spec fn with_body(p: PacketView, body: Seq<u8>) -> PacketView {
    PacketView { payload: wire::be16(p.message_id()) + body, ..p }
}

/// The packet that the gateway sends on in place of a packet: one with the edited body
/// where the message is to be rewritten and could be read, otherwise the same.
pub open spec fn hooked(p: PacketView, target: ModifyTarget, edited: Option<Seq<u8>>) -> PacketView {
    match edited {
        Some(body) => if target == ModifyTarget::Nothing {
            p
        } else {
            with_body(p, body)
        },
        None => p,
    }
}

/// Puts a new body behind the number of the packet's message.
pub fn replace_body(pkt: &mut Packet, body: &[u8])
    requires
        old(pkt).payload@.len() >= 2,
    ensures
        final(pkt)@ == with_body(old(pkt)@, body@),
        final(pkt)@.message_id() == old(pkt)@.message_id(),
{
    let id: u16 = pkt.message_id();
    let mut payload: Vec<u8> = Vec::new();
    wire::push_be16(&mut payload, id);
    payload.extend_from_slice(body);
    assert(payload@ =~= wire::be16(id) + body@);
    proof {
        wire::law_be16_round_trip(Seq::<u8>::empty(), id, body@);
        assert(payload@ =~= Seq::<u8>::empty() + wire::be16(id) + body@);
    }
    pkt.payload = payload;
}

/// How a head unit names itself.
#[derive(Debug)]
pub struct HeadUnitNames {
    pub make: String,
    pub model: String,
    pub head_unit_make: String,
    pub head_unit_model: String,
}

/// Names with their texts as sequences.
#[verifier::ext_equal]
pub struct HeadUnitNamesView {
    pub make: Seq<char>,
    pub model: Seq<char>,
    pub head_unit_make: Seq<char>,
    pub head_unit_model: Seq<char>,
}

impl View for HeadUnitNames {
    type V = HeadUnitNamesView;

    open spec fn view(&self) -> HeadUnitNamesView {
        HeadUnitNamesView {
            make: self.make@,
            model: self.model@,
            head_unit_make: self.head_unit_make@,
            head_unit_model: self.head_unit_model@,
        }
    }
}

/// The parts of the head unit's list of services that the gateway can change.
#[derive(Debug)]
pub struct ServiceDiscoveryInfo {
    pub names: HeadUnitNames,
    pub headunit_info: Option<HeadUnitNames>,
    /// For every service the densities of its picture formats.
    pub densities: Vec<Vec<u32>>,
}

/// The names under which a development head unit is known.
pub open spec fn developer_names(make: Seq<char>, model: Seq<char>) -> HeadUnitNamesView {
    HeadUnitNamesView { make, model, head_unit_make: make, head_unit_model: model }
}

/// The first service from `i` on that has a picture format, or the number of services.
pub open spec fn first_video(densities: Seq<Seq<u32>>, i: int) -> int
    decreases densities.len() - i,
{
    if i >= densities.len() {
        densities.len() as int
    } else if densities[i].len() > 0 {
        i
    } else {
        first_video(densities, i + 1)
    }
}

/// The contents of each list.
pub open spec fn lists(v: Seq<Vec<u32>>) -> Seq<Seq<u32>> {
    v.map_values(|l: Vec<u32>| l@)
}

/// The densities with that of the first picture format of the first service that has
/// one replaced.
pub open spec fn with_density(densities: Seq<Seq<u32>>, dpi: u32) -> Seq<Seq<u32>> {
    let k = first_video(densities, 0);
    if 0 <= k < densities.len() {
        densities.update(k, densities[k].update(0, dpi))
    } else {
        densities
    }
}

proof fn lemma_first_video_is_kept(a: Seq<Seq<u32>>, b: Seq<Seq<u32>>, i: int)
    requires
        0 <= i,
        a.len() == b.len(),
        forall|k: int| 0 <= k < a.len() ==> (#[trigger] a[k]).len() == b[k].len(),
    ensures
        first_video(a, i) == first_video(b, i),
        i <= a.len() ==> i <= first_video(a, i) <= a.len(),
        first_video(a, i) < a.len() ==> a[first_video(a, i)].len() > 0,
    decreases a.len() - i,
{
    if i < a.len() {
        assert(a[i].len() == b[i].len());
        lemma_first_video_is_kept(a, b, i + 1);
    }
}

/// A configured density changes one density at most, that of the first picture format of
/// all, and once it stands there another pass changes nothing.
pub proof fn law_density_is_replaced_once(densities: Seq<Seq<u32>>, dpi: u32)
    ensures
        with_density(with_density(densities, dpi), dpi) == with_density(densities, dpi),
        with_density(densities, dpi).len() == densities.len(),
        forall|i: int, j: int|
            0 <= i < densities.len() && 0 <= j < densities[i].len() && !(i == first_video(
                densities,
                0,
            ) && j == 0) ==> (#[trigger] with_density(densities, dpi)[i][j]) == densities[i][j],
        (exists|i: int| 0 <= i < densities.len() && (#[trigger] densities[i]).len() > 0) ==> {
            let k = first_video(densities, 0);
            0 <= k < densities.len() && with_density(densities, dpi)[k][0] == dpi
        },
{
    let changed = with_density(densities, dpi);
    lemma_first_video_is_kept(densities, densities, 0);
    lemma_first_video_is_kept(densities, changed, 0);
    let k = first_video(densities, 0);
    if k < densities.len() {
        assert(changed[k].update(0, dpi) =~= changed[k]);
        assert(changed.update(k, changed[k].update(0, dpi)) =~= changed);
    } else {
        lemma_no_video(densities, 0);
    }
}

proof fn lemma_no_video(densities: Seq<Seq<u32>>, i: int)
    requires
        0 <= i,
        first_video(densities, i) >= densities.len(),
    ensures
        forall|k: int| i <= k < densities.len() ==> (#[trigger] densities[k]).len() == 0,
    decreases densities.len() - i,
{
    if i < densities.len() {
        lemma_no_video(densities, i + 1);
    }
}

fn make_developer_names(make: &String, model: &String) -> (r: HeadUnitNames)
    ensures
        r@ == developer_names(make@, model@),
{
    HeadUnitNames {
        make: make.clone(),
        model: model.clone(),
        head_unit_make: make.clone(),
        head_unit_model: model.clone(),
    }
}

/// How the list of services is rewritten.
pub open spec fn rewritten(
    cfg: AppConfig,
    make: Seq<char>,
    model: Seq<char>,
    before: ServiceDiscoveryInfo,
    after: ServiceDiscoveryInfo,
) -> bool {
    &&& cfg.developer_mode ==> after.names@ == developer_names(make, model)
    &&& !cfg.developer_mode ==> after.names == before.names
    &&& after.headunit_info is Some <==> before.headunit_info is Some
    &&& cfg.developer_mode && before.headunit_info is Some ==> after.headunit_info->0@
        == developer_names(make, model)
    &&& !cfg.developer_mode ==> after.headunit_info == before.headunit_info
    &&& lists(after.densities@) == if cfg.dpi > 0 {
        with_density(lists(before.densities@), cfg.dpi as u32)
    } else {
        lists(before.densities@)
    }
}

/// Rewrites the head unit's list of services: in developer mode the head unit gets the
/// names of a development one, and a configured density replaces that of the first
/// picture format.
pub fn modify_service_discovery(
    cfg: &AppConfig,
    make: &String,
    model: &String,
    msg: &mut ServiceDiscoveryInfo,
)
    ensures
        rewritten(*cfg, make@, model@, *old(msg), *final(msg)),
{
    if cfg.developer_mode {
        msg.names = make_developer_names(make, model);
        if msg.headunit_info.is_some() {
            msg.headunit_info = Some(make_developer_names(make, model));
        }
    }
    if cfg.dpi > 0 {
        let ghost before = msg.densities@;
        let mut i: usize = 0;
        while i < msg.densities.len()
            invariant_except_break
                msg.densities@ == before,
                first_video(lists(before), i as int) == first_video(lists(before), 0),
            invariant
                i <= msg.densities@.len(),
                msg.names == old(msg).names || cfg.developer_mode,
                cfg.developer_mode ==> msg.names@ == developer_names(make@, model@),
                msg.headunit_info is Some <==> old(msg).headunit_info is Some,
                cfg.developer_mode && old(msg).headunit_info is Some ==> msg.headunit_info->0@
                    == developer_names(make@, model@),
                !cfg.developer_mode ==> msg.headunit_info == old(msg).headunit_info,
                cfg.dpi > 0,
            ensures
                lists(msg.densities@) == with_density(lists(before), cfg.dpi as u32),
            decreases msg.densities@.len() - i,
        {
            assert(lists(before)[i as int] == before[i as int]@);
            if msg.densities[i].len() > 0 {
                let mut list: Vec<u32> = Vec::new();
                let mut old_list = msg.densities.remove(i);
                let ghost k = old_list@;
                list.append(&mut old_list);
                list.set(0, cfg.dpi as u32);
                assert(list@ =~= k.update(0, cfg.dpi as u32));
                msg.densities.insert(i, list);
                assert(lists(msg.densities@) =~= with_density(lists(before), cfg.dpi as u32));
                break;
            }
            i = i + 1;
        }
    }
}

/// The gear that a sensor reports.
#[derive(Clone, Copy, Debug, PartialEq, Eq, Structural)]
pub enum Gear {
    Park,
    Other { number: i32 },
}

/// Three values along the axes of the vehicle.
#[derive(Clone, Copy, Debug, PartialEq, Eq, Structural)]
pub struct Axes {
    pub x_e3: i32,
    pub y_e3: i32,
    pub z_e3: i32,
}

/// The bearing of the compass.
#[derive(Clone, Copy, Debug, PartialEq, Eq, Structural)]
pub struct Compass {
    pub bearing_e6: i32,
    pub pitch_e6: i32,
    pub roll_e6: i32,
}

/// Steering angle and wheel speeds.
#[derive(Debug)]
pub struct DeadReckoning {
    pub steering_angle_e1: i32,
    pub wheel_speed_e3: Vec<i32>,
}

/// The samples of a sensor batch that tell whether the vehicle moves.
#[derive(Debug)]
pub struct SensorBatchInfo {
    pub driving_status: Vec<i32>,
    pub gear: Vec<Gear>,
    pub parking_brake: Vec<bool>,
    pub accelerometer: Vec<Axes>,
    pub gyroscope: Vec<Axes>,
    pub dead_reckoning: Vec<DeadReckoning>,
    pub compass: Vec<Compass>,
}

/// The list with its first element replaced, where it has one.
pub open spec fn with_first<T>(s: Seq<T>, value: T) -> Seq<T> {
    if s.len() > 0 {
        s.update(0, value)
    } else {
        s
    }
}

/// What only gravity makes an accelerometer report.
pub open spec fn resting() -> Axes {
    Axes { x_e3: 0, y_e3: 0, z_e3: 9810 }
}

/// A vehicle that stands: no steering, four wheels at rest.
pub open spec fn stands(d: DeadReckoning) -> bool {
    d.steering_angle_e1 == 0 && d.wheel_speed_e3@ == seq![0i32, 0, 0, 0]
}

fn set_first<T: Copy>(v: &mut Vec<T>, value: T)
    ensures
        final(v)@ == with_first(old(v)@, value),
{
    if v.len() > 0 {
        v.set(0, value);
    }
}

/// How a sensor batch is rewritten.
pub open spec fn parked(before: SensorBatchInfo, after: SensorBatchInfo) -> bool {
    &&& after.driving_status@ == with_first(before.driving_status@, 0)
    &&& after.gear@ == with_first(before.gear@, Gear::Park)
    &&& after.parking_brake@ == with_first(before.parking_brake@, true)
    &&& after.accelerometer@ == with_first(before.accelerometer@, resting())
    &&& after.gyroscope@ == with_first(
        before.gyroscope@,
        Axes { x_e3: 0, y_e3: 0, z_e3: 0 },
    )
    &&& after.dead_reckoning@.len() == before.dead_reckoning@.len()
    &&& before.dead_reckoning@.len() > 0 ==> stands(after.dead_reckoning@[0])
    &&& forall|i: int|
        0 < i < before.dead_reckoning@.len() ==> after.dead_reckoning@[i]
            == before.dead_reckoning@[i]
    &&& after.compass@ == with_first(
        before.compass@,
        Compass { pitch_e6: 0, roll_e6: 0, ..before.compass@[0] },
    )
}

/// Rewrites a sensor batch so that the vehicle is parked: the first sample of each
/// kind reports no restriction, the parking gear, a set brake and no motion. Other
/// samples stay as they are.
pub fn modify_sensor_batch(msg: &mut SensorBatchInfo)
    ensures
        parked(*old(msg), *final(msg)),
{
    set_first(&mut msg.driving_status, 0);
    set_first(&mut msg.gear, Gear::Park);
    set_first(&mut msg.parking_brake, true);
    // a parked car only feels gravity
    set_first(&mut msg.accelerometer, Axes { x_e3: 0, y_e3: 0, z_e3: 9810 });
    set_first(&mut msg.gyroscope, Axes { x_e3: 0, y_e3: 0, z_e3: 0 });
    if msg.dead_reckoning.len() > 0 {
        let mut wheels: Vec<i32> = Vec::new();
        wheels.push(0);
        wheels.push(0);
        wheels.push(0);
        wheels.push(0);
        assert(wheels@ =~= seq![0i32, 0, 0, 0]);
        msg.dead_reckoning.set(0, DeadReckoning { steering_angle_e1: 0, wheel_speed_e3: wheels });
    }
    if msg.compass.len() > 0 {
        let bearing_e6: i32 = msg.compass[0].bearing_e6;
        msg.compass.set(0, Compass { bearing_e6, pitch_e6: 0, roll_e6: 0 });
    }
}

/// The first sample that has been replaced stays as it is when it is replaced again, and
/// no other sample ever changes.
pub proof fn law_first_sample_is_replaced_once<T>(samples: Seq<T>, value: T)
    ensures
        with_first(with_first(samples, value), value) == with_first(samples, value),
        with_first(samples, value).len() == samples.len(),
        samples.len() > 0 ==> with_first(samples, value)[0] == value,
        forall|i: int|
            0 < i < samples.len() ==> (#[trigger] with_first(samples, value)[i]) == samples[i],
{
    assert(with_first(with_first(samples, value), value) =~= with_first(samples, value));
}

// ---------------------------------------------------------------------------
// Display.

/// The messages that can be shown.
#[derive(Clone, Copy, Debug, PartialEq, Eq, Structural)]
pub enum MessageKind {
    VersionRequest,
    ByeByeRequest,
    ByeByeResponse,
    AuthResponse,
    ServiceDiscoveryRequest,
    ServiceDiscoveryResponse,
    PingRequest,
    PingResponse,
    NavFocusRequestNotification,
    ChannelOpenResponse,
    ChannelOpenRequest,
    AudioFocusRequestNotification,
    AudioFocusNotification,
    Setup,
    Start,
    Config,
    VideoFocusRequestNotification,
    VideoFocusNotification,
    SensorRequest,
    SensorResponse,
    SensorBatch,
    SensorError,
}

/// The message of a number on the control channel that can be shown.
pub open spec fn control_kind(id: u16) -> Option<MessageKind> {
    if id == protos::MESSAGE_VERSION_REQUEST {
        Some(MessageKind::VersionRequest)
    } else if id == protos::MESSAGE_BYEBYE_REQUEST {
        Some(MessageKind::ByeByeRequest)
    } else if id == protos::MESSAGE_BYEBYE_RESPONSE {
        Some(MessageKind::ByeByeResponse)
    } else if id == protos::MESSAGE_AUTH_COMPLETE {
        Some(MessageKind::AuthResponse)
    } else if id == protos::MESSAGE_SERVICE_DISCOVERY_REQUEST {
        Some(MessageKind::ServiceDiscoveryRequest)
    } else if id == protos::MESSAGE_SERVICE_DISCOVERY_RESPONSE {
        Some(MessageKind::ServiceDiscoveryResponse)
    } else if id == protos::MESSAGE_PING_REQUEST {
        Some(MessageKind::PingRequest)
    } else if id == protos::MESSAGE_PING_RESPONSE {
        Some(MessageKind::PingResponse)
    } else if id == protos::MESSAGE_NAV_FOCUS_REQUEST {
        Some(MessageKind::NavFocusRequestNotification)
    } else if id == protos::MESSAGE_CHANNEL_OPEN_RESPONSE {
        Some(MessageKind::ChannelOpenResponse)
    } else if id == protos::MESSAGE_CHANNEL_OPEN_REQUEST {
        Some(MessageKind::ChannelOpenRequest)
    } else if id == protos::MESSAGE_AUDIO_FOCUS_REQUEST {
        Some(MessageKind::AudioFocusRequestNotification)
    } else if id == protos::MESSAGE_AUDIO_FOCUS_NOTIFICATION {
        Some(MessageKind::AudioFocusNotification)
    } else {
        None
    }
}

/// The message of a number on a channel of that kind that is shown as it passes; pings
/// are left out, they are too many.
pub open spec fn shown_kind(kind: AAMessageType, id: u16) -> Option<MessageKind> {
    match kind {
        AAMessageType::Control => if id == protos::MESSAGE_PING_REQUEST || id
            == protos::MESSAGE_PING_RESPONSE {
            None
        } else {
            control_kind(id)
        },
        AAMessageType::Media => if id == protos::MEDIA_MESSAGE_SETUP {
            Some(MessageKind::Setup)
        } else if id == protos::MEDIA_MESSAGE_START {
            Some(MessageKind::Start)
        } else if id == protos::MEDIA_MESSAGE_CONFIG {
            Some(MessageKind::Config)
        } else if id == protos::MEDIA_MESSAGE_VIDEO_FOCUS_REQUEST {
            Some(MessageKind::VideoFocusRequestNotification)
        } else if id == protos::MEDIA_MESSAGE_VIDEO_FOCUS_NOTIFICATION {
            Some(MessageKind::VideoFocusNotification)
        } else {
            None
        },
        AAMessageType::Sensor => if id == protos::SENSOR_MESSAGE_REQUEST {
            Some(MessageKind::SensorRequest)
        } else if id == protos::SENSOR_MESSAGE_RESPONSE {
            Some(MessageKind::SensorResponse)
        } else if id == protos::SENSOR_MESSAGE_BATCH {
            Some(MessageKind::SensorBatch)
        } else if id == protos::SENSOR_MESSAGE_ERROR {
            Some(MessageKind::SensorError)
        } else {
            None
        },
        _ => None,
    }
}

fn control_message_kind(id: u16) -> (r: Option<MessageKind>)
    ensures
        r == control_kind(id),
{
    if id == protos::MESSAGE_VERSION_REQUEST {
        Some(MessageKind::VersionRequest)
    } else if id == protos::MESSAGE_BYEBYE_REQUEST {
        Some(MessageKind::ByeByeRequest)
    } else if id == protos::MESSAGE_BYEBYE_RESPONSE {
        Some(MessageKind::ByeByeResponse)
    } else if id == protos::MESSAGE_AUTH_COMPLETE {
        Some(MessageKind::AuthResponse)
    } else if id == protos::MESSAGE_SERVICE_DISCOVERY_REQUEST {
        Some(MessageKind::ServiceDiscoveryRequest)
    } else if id == protos::MESSAGE_SERVICE_DISCOVERY_RESPONSE {
        Some(MessageKind::ServiceDiscoveryResponse)
    } else if id == protos::MESSAGE_PING_REQUEST {
        Some(MessageKind::PingRequest)
    } else if id == protos::MESSAGE_PING_RESPONSE {
        Some(MessageKind::PingResponse)
    } else if id == protos::MESSAGE_NAV_FOCUS_REQUEST {
        Some(MessageKind::NavFocusRequestNotification)
    } else if id == protos::MESSAGE_CHANNEL_OPEN_RESPONSE {
        Some(MessageKind::ChannelOpenResponse)
    } else if id == protos::MESSAGE_CHANNEL_OPEN_REQUEST {
        Some(MessageKind::ChannelOpenRequest)
    } else if id == protos::MESSAGE_AUDIO_FOCUS_REQUEST {
        Some(MessageKind::AudioFocusRequestNotification)
    } else if id == protos::MESSAGE_AUDIO_FOCUS_NOTIFICATION {
        Some(MessageKind::AudioFocusNotification)
    } else {
        None
    }
}

/// What a log shows of the body of a packet.
#[derive(Clone, Copy, Debug, PartialEq, Eq, Structural)]
pub enum DebugBody {
    Nothing,
    /// The message that the body holds.
    Message { kind: MessageKind },
    /// That the channel is of no kind whose messages are known.
    UnknownType,
}

/// What a log shows of a packet.
#[derive(Clone, Copy, Debug, PartialEq, Eq, Structural)]
pub struct PacketDebug {
    /// Whether the packet is shown in hexadecimal.
    pub dump: bool,
    pub body: DebugBody,
}

/// The body with that message, where there is one.
pub open spec fn message_body(kind: Option<MessageKind>) -> DebugBody {
    match kind {
        Some(kind) => DebugBody::Message { kind },
        None => DebugBody::Nothing,
    }
}

/// What is shown of the body of a packet that passes on a channel of that kind.
pub open spec fn shown_body(kind: AAMessageType, id: u16) -> DebugBody {
    match kind {
        AAMessageType::Control | AAMessageType::Media | AAMessageType::Sensor => message_body(
            shown_kind(kind, id),
        ),
        _ => DebugBody::UnknownType,
    }
}

/// What a log shows of a packet with that body; nothing where it shows no details, or where
/// the packet is too short to hold a number.
pub open spec fn shown(
    enabled: bool,
    hexdump: HexdumpLevel,
    hex_requested: HexdumpLevel,
    p: PacketView,
    body: DebugBody,
) -> Option<PacketDebug> {
    if !enabled || p.payload.len() < 2 {
        None
    } else {
        Some(PacketDebug { dump: hex_requested.rank() >= hexdump.rank(), body })
    }
}

fn body_of(kind: Option<MessageKind>) -> (r: DebugBody)
    ensures
        r == message_body(kind),
{
    match kind {
        Some(kind) => DebugBody::Message { kind },
        None => DebugBody::Nothing,
    }
}

/// What a log shows of a packet on the control channel; nothing where it shows no details,
/// or where the packet is too short to hold a number.
pub fn pkt_debug(
    enabled: bool,
    hexdump: HexdumpLevel,
    hex_requested: HexdumpLevel,
    pkt: &Packet,
) -> (r: Option<PacketDebug>)
    ensures
        r == shown(
            enabled,
            hexdump,
            hex_requested,
            pkt@,
            message_body(control_kind(pkt@.message_id())),
        ),
{
    if !enabled || pkt.payload.len() < 2 {
        return None;
    }
    Some(
        PacketDebug {
            dump: hex_requested.includes(hexdump),
            body: body_of(control_message_kind(pkt.message_id())),
        },
    )
}

/// What a log shows of a packet that passes on a channel of that kind; nothing where it
/// shows no details, or where the packet is too short to hold a number.
pub(crate) fn channel_pkt_debug(
    enabled: bool,
    kind: AAMessageType,
    hexdump: HexdumpLevel,
    hex_requested: HexdumpLevel,
    pkt: &Packet,
) -> (r: Option<PacketDebug>)
    ensures
        r == shown(
            enabled,
            hexdump,
            hex_requested,
            pkt@,
            shown_body(kind, pkt@.message_id()),
        ),
{
    if !enabled || pkt.payload.len() < 2 {
        return None;
    }
    let id: u16 = pkt.message_id();
    let body = match kind {
        AAMessageType::Control => if id == protos::MESSAGE_PING_REQUEST || id
            == protos::MESSAGE_PING_RESPONSE {
            DebugBody::Nothing
        } else {
            body_of(control_message_kind(id))
        },
        AAMessageType::Media => if id == protos::MEDIA_MESSAGE_SETUP {
            DebugBody::Message { kind: MessageKind::Setup }
        } else if id == protos::MEDIA_MESSAGE_START {
            DebugBody::Message { kind: MessageKind::Start }
        } else if id == protos::MEDIA_MESSAGE_CONFIG {
            DebugBody::Message { kind: MessageKind::Config }
        } else if id == protos::MEDIA_MESSAGE_VIDEO_FOCUS_REQUEST {
            DebugBody::Message { kind: MessageKind::VideoFocusRequestNotification }
        } else if id == protos::MEDIA_MESSAGE_VIDEO_FOCUS_NOTIFICATION {
            DebugBody::Message { kind: MessageKind::VideoFocusNotification }
        } else {
            DebugBody::Nothing
        },
        AAMessageType::Sensor => if id == protos::SENSOR_MESSAGE_REQUEST {
            DebugBody::Message { kind: MessageKind::SensorRequest }
        } else if id == protos::SENSOR_MESSAGE_RESPONSE {
            DebugBody::Message { kind: MessageKind::SensorResponse }
        } else if id == protos::SENSOR_MESSAGE_BATCH {
            DebugBody::Message { kind: MessageKind::SensorBatch }
        } else if id == protos::SENSOR_MESSAGE_ERROR {
            DebugBody::Message { kind: MessageKind::SensorError }
        } else {
            DebugBody::Nothing
        },
        _ => DebugBody::UnknownType,
    };
    Some(PacketDebug { dump: hex_requested.includes(hexdump), body })
}

/// Bytes as pairs of hexadecimal digits with commas between them.
pub open spec fn hex_list(s: Seq<u8>) -> Seq<char>
    decreases s.len(),
{
    if s.len() == 0 {
        seq![]
    } else if s.len() == 1 {
        text::hex(s[0] as nat, 2)
    } else {
        hex_list(s.drop_last()) + ", "@ + text::hex(s.last() as nat, 2)
    }
}

/// A packet as text.
pub open spec fn packet_text(p: PacketView) -> Seq<char> {
    "packet dump:\n channel: "@ + text::hex(p.channel as nat, 2) + "\n flags: "@ + text::hex(
        p.flags as nat,
        2,
    ) + "\n final length: "@ + (match p.final_length {
        Some(n) => "Some("@ + text::hex(n as nat, 4) + ")"@,
        None => "None"@,
    }) + "\n payload: IntoIter(["@ + hex_list(p.payload) + "])\n"@
}

fn push_hex_list(out: &mut String, bytes: &[u8])
    ensures
        final(out)@ == old(out)@ + hex_list(bytes@),
{
    let ghost start = out@;
    let mut i: usize = 0;
    assert(out@ =~= start + hex_list(bytes@.take(0)));
    while i < bytes.len()
        invariant
            i <= bytes@.len(),
            out@ == start + hex_list(bytes@.take(i as int)),
        decreases bytes@.len() - i,
    {
        assert(bytes@.take(i + 1).drop_last() =~= bytes@.take(i as int));
        if i > 0 {
            push_text(out, ", ");
        }
        push_hex(out, bytes[i] as u32, 2);
        assert(out@ =~= start + hex_list(bytes@.take(i + 1)));
        i = i + 1;
    }
    assert(bytes@.take(i as int) =~= bytes@);
}

impl Packet {
    /// The packet as text.
    pub fn to_text(&self) -> (r: String)
        ensures
            r@ == packet_text(self@),
    {
        let mut r = String::new();
        push_text(&mut r, "packet dump:\n channel: ");
        push_hex(&mut r, self.channel as u32, 2);
        push_text(&mut r, "\n flags: ");
        push_hex(&mut r, self.flags as u32, 2);
        push_text(&mut r, "\n final length: ");
        match self.final_length {
            Some(n) => {
                push_text(&mut r, "Some(");
                push_hex(&mut r, n, 4);
                push_text(&mut r, ")");
            },
            None => {
                push_text(&mut r, "None");
            },
        }
        push_text(&mut r, "\n payload: IntoIter([");
        push_hex_list(&mut r, self.payload.as_slice());
        push_text(&mut r, "])\n");
        assert(r@ =~= packet_text(self@));
        r
    }
}

// ---------------------------------------------------------------------------
// What the changes come to.

/// Whatever a batch reports first, afterwards it reports a vehicle that stands: no driving
/// restriction, the parking gear, the brake set, gravity and nothing else, no turn, no
/// steering, four wheels at rest, and a level compass that still points where it did. As many
/// samples are there as before, and all others are the same.
pub proof fn law_parked_vehicle(before: SensorBatchInfo, after: SensorBatchInfo)
    requires
        parked(before, after),
    ensures
        after.driving_status@.len() == before.driving_status@.len(),
        after.gear@.len() == before.gear@.len(),
        after.parking_brake@.len() == before.parking_brake@.len(),
        after.accelerometer@.len() == before.accelerometer@.len(),
        after.gyroscope@.len() == before.gyroscope@.len(),
        after.dead_reckoning@.len() == before.dead_reckoning@.len(),
        after.compass@.len() == before.compass@.len(),
        after.driving_status@.len() > 0 ==> after.driving_status@[0] == 0,
        after.gear@.len() > 0 ==> after.gear@[0] == Gear::Park,
        after.parking_brake@.len() > 0 ==> after.parking_brake@[0],
        after.accelerometer@.len() > 0 ==> after.accelerometer@[0].x_e3 == 0
            && after.accelerometer@[0].y_e3 == 0 && after.accelerometer@[0].z_e3 == 9810,
        after.gyroscope@.len() > 0 ==> after.gyroscope@[0].x_e3 == 0 && after.gyroscope@[0].y_e3
            == 0 && after.gyroscope@[0].z_e3 == 0,
        after.dead_reckoning@.len() > 0 ==> after.dead_reckoning@[0].steering_angle_e1 == 0
            && after.dead_reckoning@[0].wheel_speed_e3@.len() == 4 && (forall|i: int|
            0 <= i < 4 ==> #[trigger] after.dead_reckoning@[0].wheel_speed_e3@[i] == 0),
        after.compass@.len() > 0 ==> after.compass@[0].pitch_e6 == 0 && after.compass@[0].roll_e6
            == 0 && after.compass@[0].bearing_e6 == before.compass@[0].bearing_e6,
        forall|i: int|
            0 < i < before.driving_status@.len() ==> #[trigger] after.driving_status@[i]
                == before.driving_status@[i],
        forall|i: int|
            0 < i < before.gear@.len() ==> #[trigger] after.gear@[i] == before.gear@[i],
        forall|i: int|
            0 < i < before.parking_brake@.len() ==> #[trigger] after.parking_brake@[i]
                == before.parking_brake@[i],
        forall|i: int|
            0 < i < before.accelerometer@.len() ==> #[trigger] after.accelerometer@[i]
                == before.accelerometer@[i],
        forall|i: int|
            0 < i < before.gyroscope@.len() ==> #[trigger] after.gyroscope@[i]
                == before.gyroscope@[i],
        forall|i: int|
            0 < i < before.dead_reckoning@.len() ==> #[trigger] after.dead_reckoning@[i]
                == before.dead_reckoning@[i],
        forall|i: int|
            0 < i < before.compass@.len() ==> #[trigger] after.compass@[i] == before.compass@[i],
{
}

/// In developer mode all names are those that were given, and the second set of names is
/// renamed where it is there, not added. Otherwise no name changes. Without a configured
/// density none changes; with one, the first that is there is that density and all others
/// stay.
pub proof fn law_rewritten_list(
    cfg: AppConfig,
    make: Seq<char>,
    model: Seq<char>,
    before: ServiceDiscoveryInfo,
    after: ServiceDiscoveryInfo,
    i: int,
    j: int,
)
    requires
        rewritten(cfg, make, model, before, after),
        0 <= i < before.densities@.len(),
        0 <= j < before.densities@[i]@.len(),
    ensures
        cfg.developer_mode ==> after.names.make@ == make && after.names.model@ == model
            && after.names.head_unit_make@ == make && after.names.head_unit_model@ == model,
        cfg.developer_mode ==> (after.headunit_info matches Some(n) ==> n.make@ == make
            && n.model@ == model && n.head_unit_make@ == make && n.head_unit_model@ == model),
        after.headunit_info is None <==> before.headunit_info is None,
        !cfg.developer_mode ==> after.names == before.names && after.headunit_info
            == before.headunit_info,
        after.densities@.len() == before.densities@.len(),
        after.densities@[i]@.len() == before.densities@[i]@.len(),
        cfg.dpi == 0 || j > 0 ==> after.densities@[i]@[j] == before.densities@[i]@[j],
        cfg.dpi > 0 && (forall|k: int|
            0 <= k < i ==> (#[trigger] before.densities@[k])@.len() == 0)
            ==> after.densities@[i]@[0] == cfg.dpi,
        (exists|k: int| 0 <= k < i && (#[trigger] before.densities@[k])@.len() > 0)
            ==> after.densities@[i]@[j] == before.densities@[i]@[j],
{
    let b = lists(before.densities@);
    let a = lists(after.densities@);
    lemma_first_video_is_kept(b, b, 0);
    law_density_is_replaced_once(b, cfg.dpi as u32);
    assert(a.len() == b.len() && after.densities@.len() == a.len());
    assert(a[i] == after.densities@[i]@ && b[i] == before.densities@[i]@);
    if cfg.dpi > 0 {
        lemma_nothing_before_the_first(b, 0, i);
        if exists|k: int| 0 <= k < i && (#[trigger] before.densities@[k])@.len() > 0 {
            let k = choose|k: int| 0 <= k < i && (#[trigger] before.densities@[k])@.len() > 0;
            assert(b[k] == before.densities@[k]@);
            lemma_nothing_before_the_first(b, 0, k);
        }
        let first = first_video(b, 0);
        if first < i {
            assert(b[first] == before.densities@[first]@);
        }
    }
}

proof fn lemma_nothing_before_the_first(densities: Seq<Seq<u32>>, from: int, i: int)
    requires
        0 <= from <= i < densities.len(),
        densities[i].len() > 0,
    ensures
        first_video(densities, from) <= i,
    decreases i - from,
{
    if from < i {
        lemma_nothing_before_the_first(densities, from + 1, i);
    }
}

/// A log shows something exactly of the packets that are long enough, where it shows details
/// at all. Its bytes are dumped from the requested level down; what is shown of the body does
/// not depend on that.
pub proof fn law_shown_packets(
    enabled: bool,
    hexdump: HexdumpLevel,
    hex_requested: HexdumpLevel,
    p: PacketView,
    body: DebugBody,
)
    ensures
        shown(enabled, hexdump, hex_requested, p, body) is Some <==> enabled && p.payload.len()
            >= 2,
        shown(enabled, hexdump, hex_requested, p, body) matches Some(d) ==> d.body == body,
        shown(enabled, hexdump, HexdumpLevel::All, p, body) matches Some(d) ==> d.dump,
        shown(enabled, hexdump, HexdumpLevel::Disabled, p, body) matches Some(d) ==> (d.dump
            <==> hexdump == HexdumpLevel::Disabled),
        shown(enabled, hexdump, hexdump, p, body) matches Some(d) ==> d.dump,
{
}

/// Bytes are listed one after the other, each with two digits, a comma and a space between
/// them; the list of a single byte has neither.
pub proof fn law_bytes_are_listed(s: Seq<u8>, b: u8)
    ensures
        hex_list(Seq::empty()).len() == 0,
        hex_list(seq![b]) == text::hex(b as nat, 2),
        s.len() > 0 ==> hex_list(s.push(b)) == hex_list(s) + seq![',', ' '] + text::hex(
            b as nat,
            2,
        ),
        s.len() > 0 ==> hex_list(s).len() == 4 * s.len() - 2,
    decreases s.len(),
{
    reveal_strlit(", ");
    assert(", "@ =~= seq![',', ' ']);
    assert(s.push(b).drop_last() =~= s);
    if s.len() > 0 {
        text_laws::law_bytes_have_two_digits(s.last() as nat);
        if s.len() > 1 {
            law_bytes_are_listed(s.drop_last(), b);
        }
    }
}

/// A packet is shown with its channel and its flags, two digits each, its length where it has
/// one, four digits, and its payload; nothing else of it is shown, and the parts stand in this
/// order behind their names.
pub proof fn law_packet_as_text(p: PacketView)
    ensures
        ({
            let t = packet_text(p);
            let list = hex_list(p.payload);
            let n = t.len() as int;
            &&& t.take(23) == "packet dump:\n channel: "@
            &&& t.subrange(23, 25) == text::hex(p.channel as nat, 2)
            &&& t.subrange(25, 34) == "\n flags: "@
            &&& t.subrange(34, 36) == text::hex(p.flags as nat, 2)
            &&& t.subrange(36, 52) == "\n final length: "@
            &&& p.final_length is None ==> t.subrange(52, 56) == "None"@ && n == 80 + list.len()
            &&& p.final_length matches Some(len) ==> t.subrange(52, 57) == "Some("@ && t.subrange(
                57,
                57 + text::hex(len as nat, 4).len() as int,
            ) == text::hex(len as nat, 4) && n == 82 + text::hex(len as nat, 4).len() + list.len()
            &&& t.subrange(n - 3, n) == "])\n"@
            &&& t.subrange(n - 3 - list.len(), n - 3) == list
        }),
{
    reveal_strlit("packet dump:\n channel: ");
    reveal_strlit("\n flags: ");
    reveal_strlit("\n final length: ");
    reveal_strlit("Some(");
    reveal_strlit(")");
    reveal_strlit("None");
    reveal_strlit("\n payload: IntoIter([");
    reveal_strlit("])\n");
    text_laws::law_bytes_have_two_digits(p.channel as nat);
    text_laws::law_bytes_have_two_digits(p.flags as nat);
    let t = packet_text(p);
    let list = hex_list(p.payload);
    let n = t.len() as int;
    assert(t.take(23) =~= "packet dump:\n channel: "@);
    assert(t.subrange(23, 25) =~= text::hex(p.channel as nat, 2));
    assert(t.subrange(25, 34) =~= "\n flags: "@);
    assert(t.subrange(34, 36) =~= text::hex(p.flags as nat, 2));
    assert(t.subrange(36, 52) =~= "\n final length: "@);
    match p.final_length {
        Some(len) => {
            let digits = text::hex(len as nat, 4);
            assert(t.subrange(52, 57) =~= "Some("@);
            assert(t.subrange(57, 57 + digits.len() as int) =~= digits);
        },
        None => {
            assert(t.subrange(52, 56) =~= "None"@);
        },
    }
    assert(t.subrange(n - 3, n) =~= "])\n"@);
    assert(t.subrange(n - 3 - list.len(), n - 3) =~= list);
}

} // verus!
