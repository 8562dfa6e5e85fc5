//! The loops that hold a session together: how the peers are waited for, when a
//! session ends, and how the transfer is watched.
use vstd::prelude::*;

use crate::channel_manager::Packet;
use crate::config::{Action, WifiConfig};
use crate::messages;
use crate::messages::compose_command;
use crate::protos;
use crate::text;
use crate::text::{chars_of, lines_of, push_decimal, same_chars, same_text, trim_chars, words_of};

verus! {

/// The most that one read of an endpoint asks for.
pub const BUFFER_LEN: usize = 16384;

// ---------------------------------------------------------------------------
// Watching the transfer.

/// What the monitor looks at.
#[derive(Clone, Copy, Debug, PartialEq, Eq, Structural)]
pub struct MonitorInput {
    /// All bytes sent to the head unit.
    pub usb_bytes_out: usize,
    /// All bytes received from the head unit.
    pub tcp_bytes_out: usize,
    /// Nanoseconds since the last report.
    pub since_report: u128,
    /// Nanoseconds since the last check for a stall.
    pub since_stall_check: u128,
    /// What a user has asked for.
    pub action: Option<Action>,
}

/// A report of the transfer.
#[derive(Clone, Copy, Debug, PartialEq, Eq, Structural)]
pub struct TransferReport {
    pub usb_transferred_total: usize,
    pub usb_transferred_last: usize,
    pub tcp_transferred_total: usize,
    pub tcp_transferred_last: usize,
}

/// Whether the monitor goes on.
#[derive(Clone, Copy, Debug, PartialEq, Eq, Structural)]
pub enum MonitorOutcome {
    /// Wait for 100 milliseconds and look again.
    Continue,
    /// One direction has stalled.
    Stalled,
    /// A user has asked for something; a request to reconnect counts as done.
    ActionRequested { action: Action, clear: bool },
}

/// What the monitor found.
#[derive(Clone, Copy, Debug, PartialEq, Eq, Structural)]
pub struct MonitorStep {
    /// A report to show; the time until the next one begins now.
    pub report: Option<TransferReport>,
    /// Whether a check for a stall was passed; the time until the next one begins now.
    pub stall_checked: bool,
    pub outcome: MonitorOutcome,
}

/// The counters as they were at the last report and at the last check.
#[derive(Clone, Copy, Debug, PartialEq, Eq, Structural)]
pub struct TransferMonitor {
    pub usb_bytes_out_last: usize,
    pub tcp_bytes_out_last: usize,
    pub stall_usb_bytes_last: usize,
    pub stall_tcp_bytes_last: usize,
}

impl TransferMonitor {
    /// The counters have not been set back since.
    pub open spec fn counters_grew(self, input: MonitorInput) -> bool {
        &&& self.usb_bytes_out_last <= input.usb_bytes_out
        &&& self.tcp_bytes_out_last <= input.tcp_bytes_out
        &&& self.stall_usb_bytes_last <= input.usb_bytes_out
        &&& self.stall_tcp_bytes_last <= input.tcp_bytes_out
    }

    /// Whether a report is due.
    pub open spec fn report_due(self, interval: Option<u128>, input: MonitorInput) -> bool {
        interval matches Some(d) && input.since_report > d
    }

    /// The report.
    pub open spec fn report(self, input: MonitorInput) -> TransferReport {
        TransferReport {
            usb_transferred_total: input.usb_bytes_out,
            usb_transferred_last: (input.usb_bytes_out - self.usb_bytes_out_last) as usize,
            tcp_transferred_total: input.tcp_bytes_out,
            tcp_transferred_last: (input.tcp_bytes_out - self.tcp_bytes_out_last) as usize,
        }
    }

    /// Whether a check is due and one direction has not moved since the last one.
    pub open spec fn stalled(self, read_timeout: u128, input: MonitorInput) -> bool {
        input.since_stall_check > read_timeout && (input.usb_bytes_out == self.stall_usb_bytes_last
            || input.tcp_bytes_out == self.stall_tcp_bytes_last)
    }

    /// What a look finds.
    pub open spec fn finding(
        self,
        interval: Option<u128>,
        read_timeout: u128,
        input: MonitorInput,
    ) -> MonitorStep {
        MonitorStep {
            report: if self.report_due(interval, input) {
                Some(self.report(input))
            } else {
                None
            },
            stall_checked: input.since_stall_check > read_timeout && !self.stalled(
                read_timeout,
                input,
            ),
            outcome: if self.stalled(read_timeout, input) {
                MonitorOutcome::Stalled
            } else {
                match input.action {
                    Some(action) => MonitorOutcome::ActionRequested {
                        action,
                        clear: action == Action::Reconnect,
                    },
                    None => MonitorOutcome::Continue,
                }
            },
        }
    }

    /// The monitor after a look.
    pub open spec fn after(
        self,
        interval: Option<u128>,
        read_timeout: u128,
        input: MonitorInput,
    ) -> TransferMonitor {
        let reported = if self.report_due(interval, input) {
            TransferMonitor {
                usb_bytes_out_last: input.usb_bytes_out,
                tcp_bytes_out_last: input.tcp_bytes_out,
                ..self
            }
        } else {
            self
        };
        if input.since_stall_check > read_timeout && !self.stalled(read_timeout, input) {
            TransferMonitor {
                stall_usb_bytes_last: input.usb_bytes_out,
                stall_tcp_bytes_last: input.tcp_bytes_out,
                ..reported
            }
        } else {
            reported
        }
    }

    pub fn new() -> (r: Self)
        ensures
            r == (TransferMonitor {
                usb_bytes_out_last: 0,
                tcp_bytes_out_last: 0,
                stall_usb_bytes_last: 0,
                stall_tcp_bytes_last: 0,
            }),
    {
        TransferMonitor {
            usb_bytes_out_last: 0,
            tcp_bytes_out_last: 0,
            stall_usb_bytes_last: 0,
            stall_tcp_bytes_last: 0,
        }
    }

    /// Looks at the counters, the clocks and the user's wishes.
    pub fn transfer_monitor(
        &mut self,
        stats_interval: Option<u128>,
        read_timeout: u128,
        input: &MonitorInput,
    ) -> (r: MonitorStep)
        requires
            old(self).counters_grew(*input),
        ensures
            r == old(self).finding(stats_interval, read_timeout, *input),
            *final(self) == old(self).after(stats_interval, read_timeout, *input),
    {
        let mut report: Option<TransferReport> = None;
        if let Some(interval) = stats_interval {
            if input.since_report > interval {
                report = Some(
                    TransferReport {
                        usb_transferred_total: input.usb_bytes_out,
                        usb_transferred_last: input.usb_bytes_out - self.usb_bytes_out_last,
                        tcp_transferred_total: input.tcp_bytes_out,
                        tcp_transferred_last: input.tcp_bytes_out - self.tcp_bytes_out_last,
                    },
                );
                self.usb_bytes_out_last = input.usb_bytes_out;
                self.tcp_bytes_out_last = input.tcp_bytes_out;
            }
        }
        let mut stall_checked: bool = false;
        if input.since_stall_check > read_timeout {
            let usb: usize = input.usb_bytes_out - self.stall_usb_bytes_last;
            let tcp: usize = input.tcp_bytes_out - self.stall_tcp_bytes_last;
            if usb == 0 || tcp == 0 {
                return MonitorStep { report, stall_checked, outcome: MonitorOutcome::Stalled };
            }
            stall_checked = true;
            self.stall_usb_bytes_last = input.usb_bytes_out;
            self.stall_tcp_bytes_last = input.tcp_bytes_out;
        }
        let outcome = match input.action {
            Some(action) => MonitorOutcome::ActionRequested {
                action,
                clear: action == Action::Reconnect,
            },
            None => MonitorOutcome::Continue,
        };
        MonitorStep { report, stall_checked, outcome }
    }
}

/// Reports add up: what two reports in a row call new is what was transferred since the
/// report before them.
pub proof fn law_reports_add_up(
    m: TransferMonitor,
    interval: Option<u128>,
    read_timeout: u128,
    first: MonitorInput,
    second: MonitorInput,
)
    requires
        m.counters_grew(first),
        m.report_due(interval, first),
        m.after(interval, read_timeout, first).report_due(interval, second),
        first.usb_bytes_out <= second.usb_bytes_out,
        first.tcp_bytes_out <= second.tcp_bytes_out,
    ensures
        m.after(interval, read_timeout, first).counters_grew(second),
        m.report(first).usb_transferred_last + m.after(interval, read_timeout, first).report(
            second,
        ).usb_transferred_last == second.usb_bytes_out - m.usb_bytes_out_last,
        m.report(first).tcp_transferred_last + m.after(interval, read_timeout, first).report(
            second,
        ).tcp_transferred_last == second.tcp_bytes_out - m.tcp_bytes_out_last,
{
}

/// The time between two reports, in seconds; none where the configuration says zero.
pub open spec fn interval_of(configured: u16) -> Option<u64> {
    if configured == 0 {
        None
    } else {
        Some(configured as u64)
    }
}

/// The configured time between two reports.
pub fn stats_interval(configured: u16) -> (r: Option<u64>)
    ensures
        r == interval_of(configured),
{
    if configured == 0 {
        None
    } else {
        Some(configured as u64)
    }
}

/// The outcome of a task that may itself have failed to run.
pub fn flatten<T, E>(outcome: Result<Result<T, E>, E>) -> (r: Result<T, E>)
    ensures
        r == match outcome {
            Ok(inner) => inner,
            Err(e) => Err(e),
        },
{
    match outcome {
        Ok(Ok(value)) => Ok(value),
        Ok(Err(e)) => Err(e),
        Err(e) => Err(e),
    }
}

// ---------------------------------------------------------------------------
// The network.

/// A network interface that is up.
#[derive(Debug)]
pub struct Interface {
    pub name: String,
    /// Whether the address has a scope; IPv4 addresses have none.
    pub scoped: bool,
    pub address: String,
}

/// The place of the first interface from `i` on that has the name and an IPv4 address,
/// or the number of interfaces.
pub open spec fn first_interface(interfaces: Seq<Interface>, name: Seq<char>, i: int) -> int
    decreases interfaces.len() - i,
{
    if i >= interfaces.len() {
        interfaces.len() as int
    } else if interfaces[i].name@ == name && !interfaces[i].scoped {
        i
    } else {
        first_interface(interfaces, name, i + 1)
    }
}

/// The address to tell the mobile device: that of the interface, or the default one.
pub open spec fn wlan_address(
    interfaces: Seq<Interface>,
    name: Seq<char>,
    default_addr: Seq<char>,
) -> Seq<char> {
    let i = first_interface(interfaces, name, 0);
    if 0 <= i < interfaces.len() {
        interfaces[i].address@
    } else {
        default_addr
    }
}

/// Describes the access point for the mobile device. `bssid` is the hardware address of
/// the interface.
pub fn init_wifi_config(
    interfaces: &Vec<Interface>,
    iface: &str,
    default_addr: &str,
    port: u16,
    ssid: &String,
    bssid: String,
    wpa_passphrase: &String,
) -> (r: WifiConfig)
    ensures
        r.ip_addr@ == wlan_address(interfaces@, iface@, default_addr@),
        r.port == port,
        r.ssid@ == ssid@,
        r.bssid == bssid,
        r.wpa_key@ == wpa_passphrase@,
{
    let mut ip_addr = default_addr.to_owned();
    let mut i: usize = 0;
    while i < interfaces.len()
        invariant_except_break
            ip_addr@ == default_addr@,
            first_interface(interfaces@, iface@, i as int) == first_interface(
                interfaces@,
                iface@,
                0,
            ),
        invariant
            i <= interfaces@.len(),
        ensures
            ip_addr@ == wlan_address(interfaces@, iface@, default_addr@),
        decreases interfaces@.len() - i,
    {
        if same_text(interfaces[i].name.as_str(), iface) && !interfaces[i].scoped {
            ip_addr = interfaces[i].address.clone();
            break;
        }
        i = i + 1;
    }
    WifiConfig {
        ip_addr,
        port,
        ssid: ssid.clone(),
        bssid,
        wpa_key: wpa_passphrase.clone(),
    }
}

/// An IPv4 address in dotted form.
pub open spec fn dotted(ip: (u8, u8, u8, u8)) -> Seq<char> {
    text::decimal(ip.0 as int) + seq!['.'] + text::decimal(ip.1 as int) + seq!['.'] + text::decimal(
        ip.2 as int,
    ) + seq!['.'] + text::decimal(ip.3 as int)
}

fn dotted_text(ip: (u8, u8, u8, u8)) -> (r: String)
    ensures
        r@ == dotted(ip),
{
    let mut r = String::new();
    push_decimal(&mut r, ip.0 as i64);
    r.push('.');
    push_decimal(&mut r, ip.1 as i64);
    r.push('.');
    push_decimal(&mut r, ip.2 as i64);
    r.push('.');
    push_decimal(&mut r, ip.3 as i64);
    assert(r@ =~= dotted(ip));
    r
}

/// The hardware address that `mac_address::MacAddress` reads from a text.
pub uninterp spec fn parsed_mac(text: Seq<char>) -> Option<Seq<u8>>;

/// `str::parse` to `mac_address::MacAddress`, and `MacAddress::bytes`: the six bytes that
/// the text names, or none where it names no address. Which texts name an address is
/// left to the name.
#[verifier::external_body]
fn parse_mac(text: &str) -> (r: Option<Vec<u8>>)
    ensures
        r is Some <==> parsed_mac(text@) is Some,
        r matches Some(v) ==> parsed_mac(text@) == Some(v@) && v@.len() == 6,
{
    text.parse::<mac_address::MacAddress>().ok().map(|mac| mac.bytes().to_vec())
}

/// The hardware address in a row of the address table, where the row is that of the IP
/// address: the fourth of at least four columns, the first of which is the address.
pub open spec fn arp_column(row: Seq<char>, ip: (u8, u8, u8, u8)) -> Option<Seq<char>> {
    let columns = text::words(row);
    if columns.len() >= 4 && columns[0] == dotted(ip) {
        Some(columns[3])
    } else {
        None
    }
}

/// What the first row from `i` on tells of the IP address, by what parsing gives; rows
/// whose hardware address cannot be read are passed over.
pub open spec fn arp_lookup(rows: Seq<Seq<char>>, ip: (u8, u8, u8, u8), i: int) -> Option<Seq<u8>>
    decreases rows.len() - i,
{
    if i >= rows.len() {
        None
    } else {
        match arp_column(rows[i], ip) {
            Some(column) => if parsed_mac(column) is Some {
                parsed_mac(column)
            } else {
                arp_lookup(rows, ip, i + 1)
            },
            None => arp_lookup(rows, ip, i + 1),
        }
    }
}

/// Finds the hardware address in a row of the address table, where the row is that of
/// the IP address.
pub fn find_arp_column(row: &[char], ip: (u8, u8, u8, u8)) -> (r: Option<String>)
    ensures
        r is Some <==> arp_column(row@, ip) is Some,
        r matches Some(column) ==> arp_column(row@, ip) == Some(column@),
{
    let columns = words_of(row);
    assert(columns@.len() == text::texts(columns@).len());
    if columns.len() >= 4 {
        let wanted = dotted_text(ip);
        let wanted_chars = chars_of(wanted.as_str());
        assert(text::texts(columns@)[0] == columns@[0]@);
        assert(text::texts(columns@)[3] == columns@[3]@);
        if same_chars(columns[0].as_slice(), wanted_chars.as_slice()) {
            return Some(text::string_of(columns[3].as_slice()));
        }
    }
    None
}

/// The hardware address of an IPv4 address, from the system's address table. The first
/// line of the table is its heading.
pub fn mac_from_ipv4(table: &str, ip: Option<(u8, u8, u8, u8)>) -> (r: Option<Vec<u8>>)
    ensures
        ip is None ==> r is None,
        ip matches Some(addr) ==> (r is Some <==> arp_lookup(text::lines(table@), addr, 1) is Some),
        r matches Some(mac) ==> arp_lookup(text::lines(table@), ip->0, 1) == Some(mac@)
            && mac@.len() == 6,
{
    let addr = match ip {
        Some(addr) => addr,
        None => {
            return None;
        },
    };
    let chars = chars_of(table);
    let rows = lines_of(chars.as_slice());
    let ghost views = text::texts(rows@);
    let mut i: usize = 1;
    while i < rows.len()
        invariant
            1 <= i,
            rows@.len() >= 1 ==> i <= rows@.len(),
            views == text::texts(rows@),
            views == text::lines(table@),
            ip == Some(addr),
            arp_lookup(views, addr, i as int) == arp_lookup(views, addr, 1),
        decreases rows@.len() - i,
    {
        assert(views[i as int] == rows@[i as int]@);
        if let Some(column) = find_arp_column(rows[i].as_slice(), addr) {
            if let Some(mac) = parse_mac(column.as_str()) {
                return Some(mac);
            }
        }
        i = i + 1;
    }
    None
}

/// Whether the state of the USB controller, with any white space around it, says that the
/// head unit has configured the device.
pub open spec fn is_configured(state: Seq<char>) -> bool {
    text::trimmed(state) == "CONFIGURED"@
}

/// Whether the USB state says that the head unit has configured the device.
pub fn usb_wait_for_hu_connection(state: &str) -> (b: bool)
    ensures
        b == is_configured(state@),
{
    let chars = chars_of(state);
    let t = trim_chars(chars.as_slice());
    let wanted = chars_of("CONFIGURED");
    same_chars(t.as_slice(), wanted.as_slice())
}

// ---------------------------------------------------------------------------
// The loop for mirroring.

/// Where the loop stands.
#[derive(Clone, Copy, Debug, PartialEq, Eq, Structural)]
pub enum MirrorPhase {
    /// Looks for keys and certificates.
    Keys,
    /// Waits for the mobile device.
    Device,
    /// Waits for a head unit over TCP.
    HuTcp,
    /// Waits for the head unit to configure USB.
    HuUsb,
    /// Opens the USB accessory.
    Accessory,
    Session,
}

/// What happened to the loop.
#[derive(Clone, Copy, Debug, PartialEq, Eq, Structural)]
pub enum MirrorEvent {
    Keys { present: bool },
    /// The mobile device is connected; the configuration tells whether the head unit is
    /// one on a desktop.
    DeviceConnected { dhu: bool },
    HuAccepted { ok: bool },
    UsbConfigured { ok: bool },
    AccessoryOpened { ok: bool },
    /// A task of the session has ended; what a user has asked for by then.
    SessionEnded { action: Option<Action> },
}

/// What the loop asks for, in order.
#[derive(Clone, Copy, Debug, PartialEq, Eq, Structural)]
pub enum MirrorAction {
    CheckKeys,
    /// Listen for head units and start the task for the mobile device.
    StartTasks,
    /// Read the configuration again and wait for the mobile device.
    AwaitDevice,
    AcceptHu,
    /// Prepare USB, switch to the accessory and wait for the head unit.
    PrepareUsb,
    OpenAccessory,
    StartSession,
    /// Send the cancel command to the recorder.
    CancelRecorder,
    AbortTasks,
    NotifyRestart { action: Option<Action> },
    Delay { millis: u64 },
}

/// What follows an event: the next phase and what to do.
pub open spec fn mirror_step(phase: MirrorPhase, event: MirrorEvent) -> (
    MirrorPhase,
    Seq<MirrorAction>,
) {
    match (phase, event) {
        (MirrorPhase::Keys, MirrorEvent::Keys { present }) => if present {
            (MirrorPhase::Device, seq![MirrorAction::StartTasks, MirrorAction::AwaitDevice])
        } else {
            (MirrorPhase::Keys, seq![MirrorAction::Delay { millis: 10000 }, MirrorAction::CheckKeys])
        },
        (MirrorPhase::Device, MirrorEvent::DeviceConnected { dhu }) => if dhu {
            (MirrorPhase::HuTcp, seq![MirrorAction::AcceptHu])
        } else {
            (MirrorPhase::HuUsb, seq![MirrorAction::PrepareUsb])
        },
        (MirrorPhase::HuTcp, MirrorEvent::HuAccepted { ok }) => if ok {
            (MirrorPhase::Session, seq![MirrorAction::StartSession])
        } else {
            (
                MirrorPhase::Device,
                seq![MirrorAction::Delay { millis: 1000 }, MirrorAction::AwaitDevice],
            )
        },
        (MirrorPhase::HuUsb, MirrorEvent::UsbConfigured { ok }) => if ok {
            (MirrorPhase::Accessory, seq![MirrorAction::OpenAccessory])
        } else {
            (
                MirrorPhase::Device,
                seq![MirrorAction::NotifyRestart { action: None }, MirrorAction::AwaitDevice],
            )
        },
        (MirrorPhase::Accessory, MirrorEvent::AccessoryOpened { ok }) => if ok {
            (MirrorPhase::Session, seq![MirrorAction::StartSession])
        } else {
            (
                MirrorPhase::Device,
                seq![
                    MirrorAction::Delay { millis: 1000 },
                    MirrorAction::NotifyRestart { action: None },
                    MirrorAction::AwaitDevice,
                ],
            )
        },
        (MirrorPhase::Session, MirrorEvent::SessionEnded { action }) => (
            MirrorPhase::Device,
            seq![
                MirrorAction::CancelRecorder,
                MirrorAction::AbortTasks,
                MirrorAction::NotifyRestart { action },
                MirrorAction::AwaitDevice,
            ],
        ),
        _ => (phase, seq![]),
    }
}

/// One step of the loop for mirroring. An event that the phase does not wait for changes
/// nothing.
pub fn io_loop(phase: &mut MirrorPhase, event: &MirrorEvent) -> (r: Vec<MirrorAction>)
    ensures
        *final(phase) == mirror_step(*old(phase), *event).0,
        r@ == mirror_step(*old(phase), *event).1,
{
    let mut r: Vec<MirrorAction> = Vec::new();
    let start = *phase;
    match (start, *event) {
        (MirrorPhase::Keys, MirrorEvent::Keys { present }) => {
            if present {
                *phase = MirrorPhase::Device;
                r.push(MirrorAction::StartTasks);
                r.push(MirrorAction::AwaitDevice);
            } else {
                r.push(MirrorAction::Delay { millis: 10000 });
                r.push(MirrorAction::CheckKeys);
            }
        },
        (MirrorPhase::Device, MirrorEvent::DeviceConnected { dhu }) => {
            if dhu {
                *phase = MirrorPhase::HuTcp;
                r.push(MirrorAction::AcceptHu);
            } else {
                *phase = MirrorPhase::HuUsb;
                r.push(MirrorAction::PrepareUsb);
            }
        },
        (MirrorPhase::HuTcp, MirrorEvent::HuAccepted { ok }) => {
            if ok {
                *phase = MirrorPhase::Session;
                r.push(MirrorAction::StartSession);
            } else {
                *phase = MirrorPhase::Device;
                r.push(MirrorAction::Delay { millis: 1000 });
                r.push(MirrorAction::AwaitDevice);
            }
        },
        (MirrorPhase::HuUsb, MirrorEvent::UsbConfigured { ok }) => {
            if ok {
                *phase = MirrorPhase::Accessory;
                r.push(MirrorAction::OpenAccessory);
            } else {
                *phase = MirrorPhase::Device;
                r.push(MirrorAction::NotifyRestart { action: None });
                r.push(MirrorAction::AwaitDevice);
            }
        },
        (MirrorPhase::Accessory, MirrorEvent::AccessoryOpened { ok }) => {
            if ok {
                *phase = MirrorPhase::Session;
                r.push(MirrorAction::StartSession);
            } else {
                *phase = MirrorPhase::Device;
                r.push(MirrorAction::Delay { millis: 1000 });
                r.push(MirrorAction::NotifyRestart { action: None });
                r.push(MirrorAction::AwaitDevice);
            }
        },
        (MirrorPhase::Session, MirrorEvent::SessionEnded { action }) => {
            *phase = MirrorPhase::Device;
            r.push(MirrorAction::CancelRecorder);
            r.push(MirrorAction::AbortTasks);
            r.push(MirrorAction::NotifyRestart { action });
            r.push(MirrorAction::AwaitDevice);
        },
        _ => {},
    }
    assert(r@ =~= mirror_step(start, *event).1);
    r
}

/// A session is started only when a head unit has been reached, and a session that ended
/// is cleaned up and reported with what the user has asked for.
pub proof fn law_mirror_sessions(phase: MirrorPhase, event: MirrorEvent)
    ensures
        mirror_step(phase, event).1.contains(MirrorAction::StartSession) <==> event
            == (MirrorEvent::HuAccepted { ok: true }) && phase == MirrorPhase::HuTcp || event
            == (MirrorEvent::AccessoryOpened { ok: true }) && phase == MirrorPhase::Accessory,
        mirror_step(phase, event).0 == MirrorPhase::Session ==> phase == MirrorPhase::Session
            || mirror_step(phase, event).1 == seq![MirrorAction::StartSession],
        phase == MirrorPhase::Session && (event matches MirrorEvent::SessionEnded { action }
            && true) ==> mirror_step(phase, event).1.contains(
            MirrorAction::NotifyRestart { action: event->SessionEnded_action },
        ),
{
    let actions = mirror_step(phase, event).1;
    if event == (MirrorEvent::HuAccepted { ok: true }) && phase == MirrorPhase::HuTcp {
        assert(actions[0] == MirrorAction::StartSession);
    }
    if event == (MirrorEvent::AccessoryOpened { ok: true }) && phase == MirrorPhase::Accessory {
        assert(actions[0] == MirrorAction::StartSession);
    }
    if phase == MirrorPhase::Session && event is SessionEnded {
        assert(actions[2] == (MirrorAction::NotifyRestart { action: event->SessionEnded_action }));
    }
}

/// The command that ends the recorder.
pub fn cancel_packet() -> (pkt: Packet)
    ensures
        pkt@ == messages::command_packet(0, protos::CANCEL, Seq::<u8>::empty()),
{
    let none: Vec<u8> = Vec::new();
    assert(none@ =~= Seq::<u8>::empty());
    compose_command(0, protos::CANCEL, none.as_slice())
}

// ---------------------------------------------------------------------------
// The loop for passing through.

/// Where the loop stands.
#[derive(Clone, Copy, Debug, PartialEq, Eq, Structural)]
pub enum PassPhase {
    /// Sets Bluetooth up.
    Bluetooth,
    /// Tells the mobile device about the access point.
    Handshake,
    /// Waits for the mobile device over TCP.
    Device,
    HuTcp,
    HuUsb,
    Accessory,
    Session,
}

/// What happened to the loop.
#[derive(Clone, Copy, Debug, PartialEq, Eq, Structural)]
pub enum PassEvent {
    BluetoothReady { ok: bool },
    HandshakeDone { ok: bool },
    /// Whether the mobile device has connected, and whether its hardware address is known.
    DeviceAccepted { ok: bool, has_mac: bool },
    HuAccepted { ok: bool },
    UsbConfigured { ok: bool },
    AccessoryOpened { ok: bool },
    SessionEnded { action: Option<Action> },
}

/// What the loop asks for, in order.
#[derive(Clone, Copy, Debug, PartialEq, Eq, Structural)]
pub enum PassAction {
    InitBluetooth,
    /// Whether devices were connected to before is told to the handshake.
    Handshake { stopped: bool },
    AcceptDevice,
    AcceptHu,
    PrepareUsb,
    OpenAccessory,
    StartSession,
    /// Let the head unit switch to the accessory again.
    UsbToDefault,
    ShutDownDevice,
    ShutDownHu,
    /// Take the mobile device out of the network.
    Disassociate,
    AbortTasks,
    NotifyRestart { action: Option<Action> },
    Delay { millis: u64 },
}

/// The loop with what it remembers between sessions.
#[derive(Clone, Copy, Debug, PartialEq, Eq, Structural)]
pub struct PassLoop {
    pub phase: PassPhase,
    /// Whether the head unit is one on a desktop.
    pub dhu: bool,
    pub bt_stopped: bool,
    /// Whether the hardware address of the mobile device is known.
    pub has_mac: bool,
}

impl PassLoop {
    /// What follows an event: the loop and what to do.
    pub open spec fn step(self, event: PassEvent) -> (PassLoop, Seq<PassAction>) {
        let again = PassLoop { phase: PassPhase::Bluetooth, ..self };
        let retry = seq![PassAction::Delay { millis: 1000 }, PassAction::InitBluetooth];
        match (self.phase, event) {
            (PassPhase::Bluetooth, PassEvent::BluetoothReady { ok }) => if ok {
                (
                    PassLoop { phase: PassPhase::Handshake, ..self },
                    seq![PassAction::Handshake { stopped: self.bt_stopped }],
                )
            } else {
                (self, retry)
            },
            (PassPhase::Handshake, PassEvent::HandshakeDone { ok }) => if ok {
                (
                    PassLoop { phase: PassPhase::Device, bt_stopped: true, ..self },
                    seq![PassAction::AcceptDevice],
                )
            } else {
                (again, retry)
            },
            (PassPhase::Device, PassEvent::DeviceAccepted { ok, has_mac }) => if ok {
                if self.dhu {
                    (
                        PassLoop { phase: PassPhase::HuTcp, has_mac, ..self },
                        seq![PassAction::AcceptHu],
                    )
                } else {
                    (
                        PassLoop { phase: PassPhase::HuUsb, has_mac, ..self },
                        seq![PassAction::PrepareUsb],
                    )
                }
            } else {
                (again, retry)
            },
            (PassPhase::HuTcp, PassEvent::HuAccepted { ok }) => if ok {
                (
                    PassLoop { phase: PassPhase::Session, ..self },
                    seq![PassAction::StartSession],
                )
            } else {
                (again, retry)
            },
            (PassPhase::HuUsb, PassEvent::UsbConfigured { ok }) => if ok {
                (
                    PassLoop { phase: PassPhase::Accessory, ..self },
                    seq![PassAction::OpenAccessory],
                )
            } else {
                (
                    again,
                    seq![PassAction::NotifyRestart { action: None }, PassAction::InitBluetooth],
                )
            },
            (PassPhase::Accessory, PassEvent::AccessoryOpened { ok }) => if ok {
                (
                    PassLoop { phase: PassPhase::Session, ..self },
                    seq![PassAction::StartSession],
                )
            } else {
                (
                    again,
                    seq![
                        PassAction::Delay { millis: 1000 },
                        PassAction::NotifyRestart { action: None },
                        PassAction::InitBluetooth,
                    ],
                )
            },
            (PassPhase::Session, PassEvent::SessionEnded { action }) => (
                again,
                (if self.dhu {
                    seq![PassAction::ShutDownDevice, PassAction::ShutDownHu]
                } else {
                    seq![PassAction::UsbToDefault, PassAction::ShutDownDevice]
                }) + (if self.has_mac {
                    seq![PassAction::Disassociate]
                } else {
                    seq![]
                }) + seq![
                    PassAction::AbortTasks,
                    PassAction::NotifyRestart { action },
                    PassAction::InitBluetooth,
                ],
            ),
            _ => (self, seq![]),
        }
    }

    pub fn new(dhu: bool) -> (r: Self)
        ensures
            r == (PassLoop { phase: PassPhase::Bluetooth, dhu, bt_stopped: false, has_mac: false }),
    {
        PassLoop { phase: PassPhase::Bluetooth, dhu, bt_stopped: false, has_mac: false }
    }

    fn begin_again(&mut self, r: &mut Vec<PassAction>)
        ensures
            *final(self) == (PassLoop { phase: PassPhase::Bluetooth, ..*old(self) }),
            final(r)@ == old(r)@ + seq![
                PassAction::Delay { millis: 1000 },
                PassAction::InitBluetooth,
            ],
    {
        self.phase = PassPhase::Bluetooth;
        r.push(PassAction::Delay { millis: 1000 });
        r.push(PassAction::InitBluetooth);
        assert(r@ =~= old(r)@ + seq![
            PassAction::Delay { millis: 1000 },
            PassAction::InitBluetooth,
        ]);
    }

    /// One step of the loop for passing through. An event that the phase does not wait
    /// for changes nothing.
    pub fn io_loop_pt(&mut self, event: &PassEvent) -> (r: Vec<PassAction>)
        ensures
            *final(self) == old(self).step(*event).0,
            r@ == old(self).step(*event).1,
    {
        let start = *self;
        let mut r: Vec<PassAction> = Vec::new();
        match (start.phase, *event) {
            (PassPhase::Bluetooth, PassEvent::BluetoothReady { ok }) => {
                if ok {
                    self.phase = PassPhase::Handshake;
                    r.push(PassAction::Handshake { stopped: self.bt_stopped });
                } else {
                    self.begin_again(&mut r);
                }
            },
            (PassPhase::Handshake, PassEvent::HandshakeDone { ok }) => {
                if ok {
                    self.phase = PassPhase::Device;
                    self.bt_stopped = true;
                    r.push(PassAction::AcceptDevice);
                } else {
                    self.begin_again(&mut r);
                }
            },
            (PassPhase::Device, PassEvent::DeviceAccepted { ok, has_mac }) => {
                if ok {
                    self.has_mac = has_mac;
                    if self.dhu {
                        self.phase = PassPhase::HuTcp;
                        r.push(PassAction::AcceptHu);
                    } else {
                        self.phase = PassPhase::HuUsb;
                        r.push(PassAction::PrepareUsb);
                    }
                } else {
                    self.begin_again(&mut r);
                }
            },
            (PassPhase::HuTcp, PassEvent::HuAccepted { ok }) => {
                if ok {
                    self.phase = PassPhase::Session;
                    r.push(PassAction::StartSession);
                } else {
                    self.begin_again(&mut r);
                }
            },
            (PassPhase::HuUsb, PassEvent::UsbConfigured { ok }) => {
                if ok {
                    self.phase = PassPhase::Accessory;
                    r.push(PassAction::OpenAccessory);
                } else {
                    self.phase = PassPhase::Bluetooth;
                    r.push(PassAction::NotifyRestart { action: None });
                    r.push(PassAction::InitBluetooth);
                }
            },
            (PassPhase::Accessory, PassEvent::AccessoryOpened { ok }) => {
                if ok {
                    self.phase = PassPhase::Session;
                    r.push(PassAction::StartSession);
                } else {
                    self.phase = PassPhase::Bluetooth;
                    r.push(PassAction::Delay { millis: 1000 });
                    r.push(PassAction::NotifyRestart { action: None });
                    r.push(PassAction::InitBluetooth);
                }
            },
            (PassPhase::Session, PassEvent::SessionEnded { action }) => {
                self.phase = PassPhase::Bluetooth;
                if self.dhu {
                    r.push(PassAction::ShutDownDevice);
                    r.push(PassAction::ShutDownHu);
                } else {
                    r.push(PassAction::UsbToDefault);
                    r.push(PassAction::ShutDownDevice);
                }
                if self.has_mac {
                    r.push(PassAction::Disassociate);
                }
                r.push(PassAction::AbortTasks);
                r.push(PassAction::NotifyRestart { action });
                r.push(PassAction::InitBluetooth);
            },
            _ => {},
        }
        assert(r@ =~= start.step(*event).1);
        r
    }
}

/// Once a handshake went well, later ones are told so for good; devices are connected to
/// only before that.
pub proof fn law_bluetooth_stays_stopped(l: PassLoop, event: PassEvent)
    ensures
        l.bt_stopped ==> l.step(event).0.bt_stopped,
        !l.bt_stopped && l.step(event).0.bt_stopped ==> event == (PassEvent::HandshakeDone {
            ok: true,
        }),
        forall|stopped: bool| #[trigger]
            l.step(event).1.contains(PassAction::Handshake { stopped }) ==> stopped == l.bt_stopped,
        l.step(event).0.dhu == l.dhu,
{
}

/// What a look finds, in the order of importance: a direction that stands still while a check
/// is due ends the session, whatever the user asks for. Otherwise a request of the user is
/// handed on, and only that to reconnect is taken back. Without either the session goes on.
/// A report is made exactly where one is configured and due, stall or not.
pub proof fn law_findings_of_the_monitor(
    m: TransferMonitor,
    interval: Option<u128>,
    read_timeout: u128,
    input: MonitorInput,
)
    ensures
        ({
            let found = m.finding(interval, read_timeout, input);
            let due = input.since_stall_check > read_timeout;
            let still = input.usb_bytes_out == m.stall_usb_bytes_last || input.tcp_bytes_out
                == m.stall_tcp_bytes_last;
            &&& found.outcome is Stalled <==> due && still
            &&& found.stall_checked <==> due && !still
            &&& !(due && still) && input.action is None ==> found.outcome
                == MonitorOutcome::Continue
            &&& !(due && still) && input.action == Some(Action::Reconnect) ==> found.outcome == (
            MonitorOutcome::ActionRequested { action: Action::Reconnect, clear: true })
            &&& !(due && still) && input.action == Some(Action::Reboot) ==> found.outcome == (
            MonitorOutcome::ActionRequested { action: Action::Reboot, clear: false })
            &&& interval is None ==> found.report is None
            &&& interval matches Some(t) ==> (found.report is Some <==> input.since_report > t)
        }),
{
}

/// Zero switches the reports off; every other number is their distance in seconds.
pub proof fn law_interval_of_reports(configured: u16)
    ensures
        interval_of(configured) is None <==> configured == 0,
        interval_of(configured) matches Some(n) ==> n == configured,
{
}

/// The word for a configured device counts with nothing but white space around it: no other
/// text that begins and ends without white space does.
pub proof fn law_configured_devices(state: Seq<char>)
    requires
        state.len() > 0,
        !text::is_white(state[0]),
        !text::is_white(state.last()),
    ensures
        is_configured(state) <==> state == "CONFIGURED"@,
{
}

} // verus!
