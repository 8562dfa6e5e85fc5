//! The Bluetooth side of a wireless session: how the adapter is set up, which devices
//! are tried, and what is told to the mobile device.
use vstd::prelude::*;

use crate::config::WifiConfig;
use crate::text;
use crate::text::{push_text, string_of, trim_device_tree};
use crate::wire;

verus! {

pub const AAWG_PROFILE_UUID: u128 = 0x4de17a0052cb11e6bdf40800200c9a66;

pub const BTLE_PROFILE_UUID: u128 = 0x9b3f6c10a4d2418ea2b90700300de8f4;

pub const HSP_HS_UUID: u128 = 0x0000110800001000800000805f9b34fb;

pub const HSP_AG_UUID: u128 = 0x0000111200001000800000805f9b34fb;

/// Length of the header of a handshake message.
pub const HEADER_LEN: usize = 4;

/// Number of messages in the handshake.
pub const STAGES: u8 = 5;

/// How often a device is tried before the next one.
pub const ATTEMPTS: usize = 3;

/// How often an advertisement is tried.
pub const ADVERTISING_ATTEMPTS: u8 = 3;

// ---------------------------------------------------------------------------
// Serial number and alias.

/// The length of a character in UTF-8.
pub open spec fn utf8_width(c: char) -> nat {
    let n = c as u32;
    if n < 0x80 {
        1
    } else if n < 0x800 {
        2
    } else if n < 0x1_0000 {
        3
    } else {
        4
    }
}

/// The length of a text in UTF-8.
pub open spec fn utf8_len(s: Seq<char>) -> nat
    decreases s.len(),
{
    if s.len() == 0 {
        0
    } else {
        utf8_width(s[0]) + utf8_len(s.skip(1))
    }
}

/// The serial number in the contents of its device tree file.
pub open spec fn serial_of(contents: Seq<char>) -> Seq<char> {
    text::trimmed(text::without_end_nuls(contents))
}

/// Whether a character of the text begins six bytes before its end.
pub open spec fn splits_at_six(s: Seq<char>) -> bool {
    exists|i: int| 0 <= i <= s.len() && utf8_len(#[trigger] s.skip(i)) == 6
}

proof fn lemma_suffix_lengths(s: Seq<char>, i: int, j: int)
    requires
        0 <= i <= j <= s.len(),
    ensures
        utf8_len(s.skip(j)) <= utf8_len(s.skip(i)),
        i < j ==> utf8_len(s.skip(j)) < utf8_len(s.skip(i)),
    decreases j - i,
{
    if i < j {
        assert(s.skip(i).skip(1) =~= s.skip(i + 1));
        lemma_suffix_lengths(s, i + 1, j);
    }
}

fn width_of(c: char) -> (r: usize)
    ensures
        r == utf8_width(c),
{
    let n: u32 = c as u32;
    if n < 0x80 {
        1
    } else if n < 0x800 {
        2
    } else if n < 0x1_0000 {
        3
    } else {
        4
    }
}

/// The last six bytes of the serial number; nothing where it is shorter.
pub fn get_cpu_serial_number_suffix(contents: &str) -> (r: String)
    requires
        utf8_len(serial_of(contents@)) >= 6 ==> splits_at_six(serial_of(contents@)),
    ensures
        utf8_len(serial_of(contents@)) < 6 ==> r@ == Seq::<char>::empty(),
        utf8_len(serial_of(contents@)) >= 6 ==> {
            &&& utf8_len(r@) == 6
            &&& exists|i: int|
                0 <= i <= serial_of(contents@).len() && r@ == #[trigger] serial_of(
                    contents@,
                ).skip(i)
        },
{
    let serial = trim_device_tree(contents);
    let ghost s = serial@;
    let mut i: usize = serial.len();
    let mut length: usize = 0;
    assert(s.skip(s.len() as int) =~= Seq::<char>::empty());
    assert(s.skip(0) =~= s);
    while i > 0 && length < 6
        invariant
            s == serial@,
            i <= s.len(),
            length == utf8_len(s.skip(i as int)),
            length <= 9,
            i < s.len() ==> utf8_len(s.skip(i + 1)) < 6,
        decreases i,
    {
        assert(s.skip(i - 1).skip(1) =~= s.skip(i as int));
        i = i - 1;
        length = length + width_of(serial[i]);
    }
    if length < 6 {
        return String::new();
    }
    proof {
        lemma_suffix_lengths(s, 0, i as int);
        let k = choose|k: int| 0 <= k <= s.len() && utf8_len(#[trigger] s.skip(k)) == 6;
        if k < i {
            lemma_suffix_lengths(s, k, i as int);
        } else if k > i {
            lemma_suffix_lengths(s, i + 1, k);
        }
    }
    let r = string_of(vstd::slice::slice_subrange(serial.as_slice(), i, serial.len()));
    assert(r@ =~= s.skip(i as int));
    r
}

/// The name under which the adapter is seen: the configured one, or the program's name
/// with the end of the serial number where that could be read.
pub open spec fn alias_spec(
    btalias: Option<String>,
    suffix: Option<String>,
    identity: Seq<char>,
) -> Seq<char> {
    match btalias {
        Some(a) => a@,
        None => match suffix {
            Some(s) => identity + "-"@ + s@,
            None => identity,
        },
    }
}

/// A profile to register.
#[derive(Clone, Copy, Debug, PartialEq, Eq, Structural)]
pub enum BtProfile {
    /// The wireless profile: a server on the given channel.
    AaWireless { uuid: u128, channel: u16 },
    /// The headset profile. It may fail to register.
    Headset { uuid: u128 },
}

/// How the adapter is set up.
#[derive(Debug)]
pub struct BluetoothSetup {
    pub alias: String,
    /// Let the adapter be found, without an end.
    pub discoverable: bool,
    pub profiles: Vec<BtProfile>,
}

/// The profiles to register.
pub open spec fn profiles_spec(dongle_mode: bool) -> Seq<BtProfile> {
    let wireless = BtProfile::AaWireless { uuid: AAWG_PROFILE_UUID, channel: 8 };
    if dongle_mode {
        seq![wireless]
    } else {
        seq![wireless, BtProfile::Headset { uuid: HSP_HS_UUID }]
    }
}

/// Decides how the adapter is set up.
pub fn init(
    btalias: Option<String>,
    suffix: Option<String>,
    identity: &str,
    advertise: bool,
    dongle_mode: bool,
) -> (r: BluetoothSetup)
    ensures
        r.alias@ == alias_spec(btalias, suffix, identity@),
        r.discoverable == advertise,
        r.profiles@ == profiles_spec(dongle_mode),
{
    let alias = match btalias {
        Some(a) => a,
        None => match suffix {
            Some(s) => {
                let mut name = String::new();
                push_text(&mut name, identity);
                push_text(&mut name, "-");
                push_text(&mut name, s.as_str());
                assert(name@ =~= identity@ + "-"@ + s@);
                name
            },
            None => identity.to_owned(),
        },
    };
    let mut profiles: Vec<BtProfile> = Vec::new();
    profiles.push(BtProfile::AaWireless { uuid: AAWG_PROFILE_UUID, channel: 8 });
    if !dongle_mode {
        profiles.push(BtProfile::Headset { uuid: HSP_HS_UUID });
    }
    assert(profiles@ =~= profiles_spec(dongle_mode));
    BluetoothSetup { alias, discoverable: advertise, profiles }
}

// ---------------------------------------------------------------------------
// Advertising.

/// What an advertisement tells.
#[derive(Clone, Copy, Debug, PartialEq, Eq, Structural)]
pub enum AdvertisementContent {
    /// The services and the name.
    WithServices,
    /// The name alone.
    NameOnly,
}

/// What follows an attempt to advertise.
#[derive(Clone, Copy, Debug, PartialEq, Eq, Structural)]
pub enum AdvertisingStep {
    Started,
    /// Wait for 200 milliseconds and try again with that content.
    Retry { content: AdvertisementContent },
    Failed,
}

/// The attempts to advertise.
#[derive(Clone, Copy, Debug, PartialEq, Eq, Structural)]
pub struct Advertising {
    pub content: AdvertisementContent,
    /// Failed attempts with this content.
    pub failed: u8,
    /// Whether the name alone is tried where the services cannot be advertised.
    pub fall_back: bool,
}

impl Advertising {
    pub open spec fn well_formed(self) -> bool {
        self.failed < ADVERTISING_ATTEMPTS
    }

    /// What follows an attempt.
    pub open spec fn step(self, ok: bool) -> AdvertisingStep {
        if ok {
            AdvertisingStep::Started
        } else if self.failed + 1 < ADVERTISING_ATTEMPTS {
            AdvertisingStep::Retry { content: self.content }
        } else if self.fall_back && self.content == AdvertisementContent::WithServices {
            AdvertisingStep::Retry { content: AdvertisementContent::NameOnly }
        } else {
            AdvertisingStep::Failed
        }
    }

    /// The attempts that are left after a failed one that is to be repeated.
    pub open spec fn after_failure(self) -> Advertising {
        if self.failed + 1 < ADVERTISING_ATTEMPTS {
            Advertising { failed: (self.failed + 1) as u8, ..self }
        } else {
            Advertising { content: AdvertisementContent::NameOnly, failed: 0, ..self }
        }
    }

    pub fn new(fall_back: bool) -> (r: Self)
        ensures
            r == (Advertising {
                content: AdvertisementContent::WithServices,
                failed: 0,
                fall_back,
            }),
            r.well_formed(),
    {
        Advertising { content: AdvertisementContent::WithServices, failed: 0, fall_back }
    }

    /// Decides what follows an attempt.
    pub fn attempted(&mut self, ok: bool) -> (r: AdvertisingStep)
        requires
            old(self).well_formed(),
        ensures
            final(self).well_formed(),
            r == old(self).step(ok),
            *final(self) == if r is Retry {
                old(self).after_failure()
            } else {
                *old(self)
            },
    {
        if ok {
            AdvertisingStep::Started
        } else if self.failed + 1 < ADVERTISING_ATTEMPTS {
            self.failed = self.failed + 1;
            AdvertisingStep::Retry { content: self.content }
        } else if self.fall_back && self.content == AdvertisementContent::WithServices {
            self.content = AdvertisementContent::NameOnly;
            self.failed = 0;
            AdvertisingStep::Retry { content: AdvertisementContent::NameOnly }
        } else {
            AdvertisingStep::Failed
        }
    }
}

/// The third failed attempt with the services leads to the name alone where there is a
/// fallback, and is the end otherwise; the third one with the name alone is the end.
pub proof fn law_advertising_attempts(content: AdvertisementContent, fall_back: bool)
    ensures
        ({
            let first = Advertising { content, failed: 0, fall_back };
            let second = first.after_failure();
            let third = second.after_failure();
            &&& first.step(false) == (AdvertisingStep::Retry { content })
            &&& second.step(false) == (AdvertisingStep::Retry { content })
            &&& third.step(false) == if fall_back && content
                == AdvertisementContent::WithServices {
                AdvertisingStep::Retry { content: AdvertisementContent::NameOnly }
            } else {
                AdvertisingStep::Failed
            }
            &&& third.after_failure() == (Advertising {
                content: AdvertisementContent::NameOnly,
                failed: 0,
                fall_back,
            })
        }),
{
}

// ---------------------------------------------------------------------------
// Connecting.

/// The address that stands for every known device.
pub const ANY_ADDRESS: u64 = 0;

/// Whom to connect to before waiting for the mobile device.
#[derive(Clone, Copy, Debug, PartialEq, Eq, Structural)]
pub enum ConnectPlan {
    /// Nobody.
    Wait,
    /// The devices that the adapter knows.
    KnownDevices,
    /// The configured addresses.
    Configured,
}

/// Whom to connect to where these addresses are configured.
pub open spec fn plan_for(addresses: Seq<u64>, stopped: bool) -> ConnectPlan {
    if stopped {
        ConnectPlan::Wait
    } else if addresses.contains(ANY_ADDRESS) {
        ConnectPlan::KnownDevices
    } else if addresses.len() == 0 {
        ConnectPlan::Wait
    } else {
        ConnectPlan::Configured
    }
}

/// Decides whom to connect to: nobody where no addresses are configured or the first
/// session is over, the known devices where every device is meant.
pub fn get_aa_profile_connection(connect: Option<&Vec<u64>>, stopped: bool) -> (r: ConnectPlan)
    ensures
        r == match connect {
            None => ConnectPlan::Wait,
            Some(addresses) => plan_for(addresses@, stopped),
        },
{
    match connect {
        None => ConnectPlan::Wait,
        Some(addresses) => {
            if stopped {
                return ConnectPlan::Wait;
            }
            let mut i: usize = 0;
            while i < addresses.len()
                invariant
                    i <= addresses@.len(),
                    connect == Some(addresses),
                    !stopped,
                    forall|k: int| 0 <= k < i ==> addresses@[k] != ANY_ADDRESS,
                decreases addresses@.len() - i,
            {
                if addresses[i] == ANY_ADDRESS {
                    return ConnectPlan::KnownDevices;
                }
                i = i + 1;
            }
            if addresses.len() == 0 {
                ConnectPlan::Wait
            } else {
                ConnectPlan::Configured
            }
        },
    }
}

/// What follows an attempt to connect.
#[derive(Clone, Copy, Debug, PartialEq, Eq, Structural)]
pub enum ConnectStep {
    /// Try the device at that place of the list.
    Try { index: usize },
    /// Connected; the next session begins with the device at that place.
    Connected { next_index: usize },
    /// No device could be connected to.
    GiveUp,
}

/// The attempts to connect to a list of devices: each is tried in turn, beginning at a
/// given place and going around.
#[derive(Clone, Copy, Debug, PartialEq, Eq, Structural)]
pub struct ConnectAttempts {
    /// Number of devices.
    pub n: usize,
    pub start_index: usize,
    /// Devices that have been given up.
    pub i: usize,
    /// Failed attempts with the current device.
    pub failed: usize,
}

impl ConnectAttempts {
    pub open spec fn well_formed(self) -> bool {
        &&& self.i <= self.n
        &&& self.failed < ATTEMPTS
        &&& self.start_index + self.n <= usize::MAX
    }

    /// The place of the current device.
    pub open spec fn index(self) -> int {
        (self.start_index + self.i) % self.n as int
    }

    /// What to do next.
    pub open spec fn current(self) -> ConnectStep {
        if self.i < self.n {
            ConnectStep::Try { index: self.index() as usize }
        } else {
            ConnectStep::GiveUp
        }
    }

    /// The attempts after a failed one.
    pub open spec fn after_failure(self) -> ConnectAttempts {
        if self.failed + 1 < ATTEMPTS {
            ConnectAttempts { failed: (self.failed + 1) as usize, ..self }
        } else {
            ConnectAttempts { failed: 0, i: (self.i + 1) as usize, ..self }
        }
    }

    /// The number of failed attempts so far.
    pub open spec fn tries(self) -> int {
        self.i * ATTEMPTS + self.failed
    }

    pub fn new(n: usize, start_index: usize) -> (r: Self)
        requires
            start_index + n <= usize::MAX,
        ensures
            r == (ConnectAttempts { n, start_index, i: 0, failed: 0 }),
            r.well_formed(),
    {
        ConnectAttempts { n, start_index, i: 0, failed: 0 }
    }

    /// What to do next; gives up at once where there is no device.
    pub fn next(&self) -> (r: ConnectStep)
        requires
            self.well_formed(),
        ensures
            r == self.current(),
            r matches ConnectStep::Try { index } ==> index < self.n,
    {
        if self.i < self.n {
            let index: usize = (self.start_index + self.i) % self.n;
            ConnectStep::Try { index }
        } else {
            ConnectStep::GiveUp
        }
    }

    /// The place to begin at next time: behind the device that is connected.
    pub open spec fn next_index(self) -> usize {
        ((self.index() + 1) % self.n as int) as usize
    }

    /// Decides what follows an attempt with the current device. An attempt fails where
    /// the device is not paired, too.
    pub fn try_connect_bluetooth_addresses(&mut self, connected: bool) -> (r: ConnectStep)
        requires
            old(self).well_formed(),
            old(self).i < old(self).n,
        ensures
            final(self).well_formed(),
            connected ==> *final(self) == *old(self) && r == (ConnectStep::Connected {
                next_index: old(self).next_index(),
            }),
            connected ==> (r matches ConnectStep::Connected { next_index } && next_index < old(
                self,
            ).n),
            !connected ==> *final(self) == old(self).after_failure() && r == old(
                self,
            ).after_failure().current(),
    {
        if connected {
            let index: usize = (self.start_index + self.i) % self.n;
            let next_index: usize = (index + 1) % self.n;
            return ConnectStep::Connected { next_index };
        }
        if self.failed + 1 < ATTEMPTS {
            self.failed = self.failed + 1;
        } else {
            self.failed = 0;
            self.i = self.i + 1;
        }
        self.next()
    }
}

/// Every failed attempt counts once, and the device of the attempt follows from the
/// number of the failed ones: three attempts each, going around from the first place.
/// After three attempts with each device the search is given up.
pub proof fn law_every_device_gets_its_attempts(a: ConnectAttempts)
    requires
        a.well_formed(),
        a.i < a.n,
    ensures
        a.after_failure().tries() == a.tries() + 1,
        a.after_failure().well_formed(),
        a.i == a.tries() / ATTEMPTS as int,
        a.current() == (ConnectStep::Try {
            index: ((a.start_index + a.tries() / ATTEMPTS as int) % a.n as int) as usize,
        }),
        0 <= a.index() < a.n,
        a.after_failure().current() == ConnectStep::GiveUp <==> a.tries() + 1 == a.n * ATTEMPTS,
{
}

// ---------------------------------------------------------------------------
// The handshake.

#[derive(Clone, Copy, Debug, PartialEq, Eq, Structural)]
pub enum MessageId {
    WifiStartRequest,
    WifiInfoRequest,
    WifiInfoResponse,
    WifiVersionRequest,
    WifiVersionResponse,
    WifiConnectStatus,
    WifiStartResponse,
}

/// The number of a handshake message.
pub open spec fn message_number(id: MessageId) -> u16 {
    match id {
        MessageId::WifiStartRequest => 1,
        MessageId::WifiInfoRequest => 2,
        MessageId::WifiInfoResponse => 3,
        MessageId::WifiVersionRequest => 4,
        MessageId::WifiVersionResponse => 5,
        MessageId::WifiConnectStatus => 6,
        MessageId::WifiStartResponse => 7,
    }
}

impl MessageId {
    pub fn number(&self) -> (r: u16)
        ensures
            r == message_number(*self),
    {
        match self {
            MessageId::WifiStartRequest => 1,
            MessageId::WifiInfoRequest => 2,
            MessageId::WifiInfoResponse => 3,
            MessageId::WifiVersionRequest => 4,
            MessageId::WifiVersionResponse => 5,
            MessageId::WifiConnectStatus => 6,
            MessageId::WifiStartResponse => 7,
        }
    }
}

/// The bytes of a handshake message: length, number, data.
pub open spec fn handshake_frame(id: MessageId, data: Seq<u8>) -> Seq<u8> {
    wire::be16((data.len() % 0x1_0000) as u16) + wire::be16(message_number(id)) + data
}

/// Composes a handshake message.
pub fn send_message(id: MessageId, data: &[u8]) -> (packet: Vec<u8>)
    ensures
        packet@ == handshake_frame(id, data@),
{
    let mut packet: Vec<u8> = Vec::new();
    wire::push_be16(&mut packet, (data.len() % 0x1_0000) as u16);
    wire::push_be16(&mut packet, id.number());
    packet.extend_from_slice(data);
    assert(packet@ =~= handshake_frame(id, data@));
    packet
}

/// What the header of a handshake message tells.
#[derive(Clone, Copy, Debug, PartialEq, Eq, Structural)]
pub struct MessageHeader {
    /// Length of the data.
    pub len: usize,
    /// Whether the message is the expected one. Others are accepted all the same.
    pub expected: bool,
}

/// Why the handshake fails.
#[derive(Clone, Copy, Debug, PartialEq, Eq, Structural)]
pub enum HandshakeError {
    /// The mobile device cannot connect to the access point.
    WifiUnreachable,
}

/// What the bytes of a header tell.
pub open spec fn header_in(buf: Seq<u8>, id: MessageId) -> MessageHeader {
    MessageHeader {
        len: wire::be16_at(buf, 0) as usize,
        expected: wire::be16_at(buf, 2) == message_number(id),
    }
}

/// What the data of a handshake message come to: its whole length, or that the mobile device
/// cannot connect.
pub open spec fn message_result(id: MessageId, body: Seq<u8>) -> Result<usize, HandshakeError> {
    if id == MessageId::WifiConnectStatus && body.len() >= 2 && body[1] != 0 {
        Err(HandshakeError::WifiUnreachable)
    } else {
        Ok((HEADER_LEN + body.len()) as usize)
    }
}

/// Reads the header of a handshake message.
pub fn read_message_header(buf: &[u8], id: MessageId) -> (r: MessageHeader)
    requires
        buf@.len() >= HEADER_LEN,
    ensures
        r == header_in(buf@, id),
{
    MessageHeader {
        len: wire::read_be16(buf, 0) as usize,
        expected: wire::read_be16(buf, 2) == id.number(),
    }
}

/// Looks at the data of a handshake message, which are otherwise dropped: where the
/// status of the connection is expected, its second byte must be zero.
pub fn read_message(id: MessageId, body: &[u8]) -> (r: Result<usize, HandshakeError>)
    requires
        body@.len() <= 0xFFFF,
    ensures
        r == message_result(id, body@),
{
    if id == MessageId::WifiConnectStatus && body.len() >= 2 {
        if body[1] != 0 {
            return Err(HandshakeError::WifiUnreachable);
        }
    }
    Ok(HEADER_LEN + body.len())
}

/// The header of a composed message names its data's length and its number.
pub proof fn law_handshake_round_trip(id: MessageId, data: Seq<u8>)
    requires
        data.len() <= 0xFFFF,
    ensures
        wire::be16_at(handshake_frame(id, data), 0) == data.len(),
        wire::be16_at(handshake_frame(id, data), 2) == message_number(id),
        handshake_frame(id, data).skip(4) == data,
{
    let f = handshake_frame(id, data);
    let len = wire::be16((data.len() % 0x1_0000) as u16);
    let number = wire::be16(message_number(id));
    wire::law_be16_round_trip(
        Seq::<u8>::empty(),
        (data.len() % 0x1_0000) as u16,
        number + data,
    );
    assert(f =~= Seq::<u8>::empty() + len + (number + data));
    wire::law_be16_round_trip(len, message_number(id), data);
    assert(f =~= len + number + data);
    assert(f.skip(4) =~= data);
}

/// A message of the handshake that is sent.
#[derive(Debug)]
pub enum HandshakeMessage {
    /// Where the mobile device is to connect to.
    StartRequest { ip_address: String, port: u16 },
    /// How it gets into the network; WPA2 personal, a dynamic access point.
    InfoResponse { ssid: String, key: String, bssid: String },
}

/// One stage of the handshake.
#[derive(Debug)]
pub enum HandshakeStage {
    Send { id: MessageId, message: HandshakeMessage },
    Read { id: MessageId },
    Done,
}

/// Whether the stage is the one of that number.
pub open spec fn is_stage(stage: u8, wifi: WifiConfig, s: HandshakeStage) -> bool {
    match stage {
        1 => s matches HandshakeStage::Send {
            id,
            message: HandshakeMessage::StartRequest { ip_address, port },
        } && id == MessageId::WifiStartRequest && ip_address@ == wifi.ip_addr@ && port == wifi.port,
        2 => s == (HandshakeStage::Read { id: MessageId::WifiInfoRequest }),
        3 => s matches HandshakeStage::Send {
            id,
            message: HandshakeMessage::InfoResponse { ssid, key, bssid },
        } && id == MessageId::WifiInfoResponse && ssid@ == wifi.ssid@ && key@ == wifi.wpa_key@
            && bssid@ == wifi.bssid@,
        4 => s == (HandshakeStage::Read { id: MessageId::WifiStartResponse }),
        5 => s == (HandshakeStage::Read { id: MessageId::WifiConnectStatus }),
        _ => s == HandshakeStage::Done,
    }
}

/// What happens at a stage of the handshake; they are numbered from one, and after the
/// last the handshake is done.
pub fn send_params(stage: u8, wifi: &WifiConfig) -> (r: HandshakeStage)
    ensures
        is_stage(stage, *wifi, r),
{
    match stage {
        1 => HandshakeStage::Send {
            id: MessageId::WifiStartRequest,
            message: HandshakeMessage::StartRequest {
                ip_address: wifi.ip_addr.clone(),
                port: wifi.port,
            },
        },
        2 => HandshakeStage::Read { id: MessageId::WifiInfoRequest },
        3 => HandshakeStage::Send {
            id: MessageId::WifiInfoResponse,
            message: HandshakeMessage::InfoResponse {
                ssid: wifi.ssid.clone(),
                key: wifi.wpa_key.clone(),
                bssid: wifi.bssid.clone(),
            },
        },
        4 => HandshakeStage::Read { id: MessageId::WifiStartResponse },
        5 => HandshakeStage::Read { id: MessageId::WifiConnectStatus },
        _ => HandshakeStage::Done,
    }
}

/// What ends the handshake.
#[derive(Clone, Copy, Debug, PartialEq, Eq, Structural)]
pub enum ClosingAction {
    ShutDownStream,
    /// The mobile device is to connect to the real head unit for calls.
    DisconnectDevice,
    PowerOff,
}

/// What ends a handshake that went well, in this order.
pub open spec fn closing(bt_poweroff: bool) -> Seq<ClosingAction> {
    if bt_poweroff {
        seq![
            ClosingAction::ShutDownStream,
            ClosingAction::DisconnectDevice,
            ClosingAction::PowerOff,
        ]
    } else {
        seq![ClosingAction::ShutDownStream, ClosingAction::DisconnectDevice]
    }
}

/// What ends a handshake that went well.
pub fn aa_handshake(bt_poweroff: bool) -> (r: Vec<ClosingAction>)
    ensures
        r@ == closing(bt_poweroff),
{
    let mut r: Vec<ClosingAction> = Vec::new();
    r.push(ClosingAction::ShutDownStream);
    r.push(ClosingAction::DisconnectDevice);
    if bt_poweroff {
        r.push(ClosingAction::PowerOff);
    }
    assert(r@ =~= closing(bt_poweroff));
    r
}

} // verus!
