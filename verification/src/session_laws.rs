//! What holds of whole sessions: the loops, the watch over the transfer, the media streams.
use vstd::prelude::*;

use crate::config::Action;
use crate::io_uring;
use crate::io_uring::{
    Interface, MirrorAction, MirrorEvent, MirrorPhase, MonitorInput, PassAction, PassEvent, PassLoop,
    PassPhase, TransferMonitor,
};
use crate::media_session;
use crate::media_session::{MediaActionView, MediaKind, MediaPhase, MediaSession};
use crate::scrcpy_media;
use crate::scrcpy_media::MediaFlow;
use crate::text;

verus! {

// ---------------------------------------------------------------------------
// The loop for mirroring.

/// How the loop for mirroring goes on when all goes well: keys, then the mobile device, then
/// the head unit over TCP or, where that is none on a desktop, over USB and its accessory,
/// then the session; after it the next device is awaited.
pub proof fn law_mirror_loop_goes_on(action: Option<Action>, dhu: bool)
    ensures
        io_uring::mirror_step(MirrorPhase::Keys, MirrorEvent::Keys { present: true }) == (
            MirrorPhase::Device,
            seq![MirrorAction::StartTasks, MirrorAction::AwaitDevice],
        ),
        io_uring::mirror_step(MirrorPhase::Device, MirrorEvent::DeviceConnected { dhu }) == if dhu {
            (MirrorPhase::HuTcp, seq![MirrorAction::AcceptHu])
        } else {
            (MirrorPhase::HuUsb, seq![MirrorAction::PrepareUsb])
        },
        io_uring::mirror_step(MirrorPhase::HuTcp, MirrorEvent::HuAccepted { ok: true }) == (
            MirrorPhase::Session,
            seq![MirrorAction::StartSession],
        ),
        io_uring::mirror_step(MirrorPhase::HuUsb, MirrorEvent::UsbConfigured { ok: true }) == (
            MirrorPhase::Accessory,
            seq![MirrorAction::OpenAccessory],
        ),
        io_uring::mirror_step(MirrorPhase::Accessory, MirrorEvent::AccessoryOpened { ok: true })
            == (MirrorPhase::Session, seq![MirrorAction::StartSession]),
        io_uring::mirror_step(MirrorPhase::Session, MirrorEvent::SessionEnded { action }) == (
            MirrorPhase::Device,
            seq![
                MirrorAction::CancelRecorder,
                MirrorAction::AbortTasks,
                MirrorAction::NotifyRestart { action },
                MirrorAction::AwaitDevice,
            ],
        ),
{
}

/// What the loop for mirroring does where something fails: keys are looked for again after
/// ten seconds, a head unit is waited for again with the next device, after a second and, over
/// USB, with word of the restart.
pub proof fn law_mirror_loop_tries_again()
    ensures
        io_uring::mirror_step(MirrorPhase::Keys, MirrorEvent::Keys { present: false }) == (
            MirrorPhase::Keys,
            seq![MirrorAction::Delay { millis: 10000 }, MirrorAction::CheckKeys],
        ),
        io_uring::mirror_step(MirrorPhase::HuTcp, MirrorEvent::HuAccepted { ok: false }) == (
            MirrorPhase::Device,
            seq![MirrorAction::Delay { millis: 1000 }, MirrorAction::AwaitDevice],
        ),
        io_uring::mirror_step(MirrorPhase::HuUsb, MirrorEvent::UsbConfigured { ok: false }) == (
            MirrorPhase::Device,
            seq![MirrorAction::NotifyRestart { action: None }, MirrorAction::AwaitDevice],
        ),
        io_uring::mirror_step(MirrorPhase::Accessory, MirrorEvent::AccessoryOpened { ok: false })
            == (
            MirrorPhase::Device,
            seq![
                MirrorAction::Delay { millis: 1000 },
                MirrorAction::NotifyRestart { action: None },
                MirrorAction::AwaitDevice,
            ],
        ),
{
}

/// The event that a phase of mirroring waits for.
pub open spec fn mirror_waits_for(phase: MirrorPhase, event: MirrorEvent) -> bool {
    match event {
        MirrorEvent::Keys { .. } => phase == MirrorPhase::Keys,
        MirrorEvent::DeviceConnected { .. } => phase == MirrorPhase::Device,
        MirrorEvent::HuAccepted { .. } => phase == MirrorPhase::HuTcp,
        MirrorEvent::UsbConfigured { .. } => phase == MirrorPhase::HuUsb,
        MirrorEvent::AccessoryOpened { .. } => phase == MirrorPhase::Accessory,
        MirrorEvent::SessionEnded { .. } => phase == MirrorPhase::Session,
    }
}

/// The loop for mirroring never ends: every event that it waits for leaves something to do,
/// the last of which waits for the next phase's event. Other events change nothing.
pub proof fn law_mirror_loop_never_ends(phase: MirrorPhase, event: MirrorEvent)
    ensures
        ({
            let (next, actions) = io_uring::mirror_step(phase, event);
            let waiting = match next {
                MirrorPhase::Keys => MirrorAction::CheckKeys,
                MirrorPhase::Device => MirrorAction::AwaitDevice,
                MirrorPhase::HuTcp => MirrorAction::AcceptHu,
                MirrorPhase::HuUsb => MirrorAction::PrepareUsb,
                MirrorPhase::Accessory => MirrorAction::OpenAccessory,
                MirrorPhase::Session => MirrorAction::StartSession,
            };
            &&& mirror_waits_for(phase, event) ==> actions.len() > 0 && actions.last() == waiting
            &&& !mirror_waits_for(phase, event) ==> next == phase && actions.len() == 0
        }),
{
}

// ---------------------------------------------------------------------------
// The loop for passing through.

/// How the loop for passing through goes on when all goes well: Bluetooth, the handshake,
/// which is told whether one went well before, the mobile device, then the head unit over TCP
/// or over USB and its accessory, then the session. Nothing but the phase, the known hardware
/// address and the handshake that went well changes.
pub proof fn law_pass_loop_goes_on(l: PassLoop, has_mac: bool)
    ensures
        l.phase == PassPhase::Bluetooth ==> l.step(PassEvent::BluetoothReady { ok: true }) == (
            PassLoop { phase: PassPhase::Handshake, ..l },
            seq![PassAction::Handshake { stopped: l.bt_stopped }],
        ),
        l.phase == PassPhase::Handshake ==> l.step(PassEvent::HandshakeDone { ok: true }) == (
            PassLoop { phase: PassPhase::Device, bt_stopped: true, ..l },
            seq![PassAction::AcceptDevice],
        ),
        l.phase == PassPhase::Device && l.dhu ==> l.step(
            PassEvent::DeviceAccepted { ok: true, has_mac },
        ) == (
            PassLoop { phase: PassPhase::HuTcp, has_mac, ..l },
            seq![PassAction::AcceptHu],
        ),
        l.phase == PassPhase::Device && !l.dhu ==> l.step(
            PassEvent::DeviceAccepted { ok: true, has_mac },
        ) == (
            PassLoop { phase: PassPhase::HuUsb, has_mac, ..l },
            seq![PassAction::PrepareUsb],
        ),
        l.phase == PassPhase::HuTcp ==> l.step(PassEvent::HuAccepted { ok: true }) == (
            PassLoop { phase: PassPhase::Session, ..l },
            seq![PassAction::StartSession],
        ),
        l.phase == PassPhase::HuUsb ==> l.step(PassEvent::UsbConfigured { ok: true }) == (
            PassLoop { phase: PassPhase::Accessory, ..l },
            seq![PassAction::OpenAccessory],
        ),
        l.phase == PassPhase::Accessory ==> l.step(PassEvent::AccessoryOpened { ok: true }) == (
            PassLoop { phase: PassPhase::Session, ..l },
            seq![PassAction::StartSession],
        ),
{
}

/// Where something fails, the loop for passing through begins again with Bluetooth, after a
/// second, and with word of the restart where the head unit was waited for over USB.
pub proof fn law_pass_loop_tries_again(l: PassLoop, has_mac: bool)
    ensures
        ({
            let again = PassLoop { phase: PassPhase::Bluetooth, ..l };
            let later = seq![PassAction::Delay { millis: 1000 }, PassAction::InitBluetooth];
            &&& l.phase == PassPhase::Bluetooth ==> l.step(PassEvent::BluetoothReady { ok: false })
                == (again, later)
            &&& l.phase == PassPhase::Handshake ==> l.step(PassEvent::HandshakeDone { ok: false })
                == (again, later)
            &&& l.phase == PassPhase::Device ==> l.step(
                PassEvent::DeviceAccepted { ok: false, has_mac },
            ) == (again, later)
            &&& l.phase == PassPhase::HuTcp ==> l.step(PassEvent::HuAccepted { ok: false }) == (
                again,
                later,
            )
            &&& l.phase == PassPhase::HuUsb ==> l.step(PassEvent::UsbConfigured { ok: false }) == (
                again,
                seq![PassAction::NotifyRestart { action: None }, PassAction::InitBluetooth],
            )
            &&& l.phase == PassPhase::Accessory ==> l.step(
                PassEvent::AccessoryOpened { ok: false },
            ) == (
                again,
                seq![
                    PassAction::Delay { millis: 1000 },
                    PassAction::NotifyRestart { action: None },
                    PassAction::InitBluetooth,
                ],
            )
        }),
{
}

/// What ends a session that passed through: the mobile device is always shut down, the head
/// unit over TCP, too, and USB goes back to its default otherwise. The mobile device leaves
/// the network exactly where its hardware address is known. Then the tasks are aborted, the
/// restart is told with what the user has asked for, and Bluetooth is set up again.
pub proof fn law_pass_session_is_cleaned_up(l: PassLoop, action: Option<Action>)
    requires
        l.phase == PassPhase::Session,
    ensures
        ({
            let (next, actions) = l.step(PassEvent::SessionEnded { action });
            let n = actions.len() as int;
            &&& next == (PassLoop { phase: PassPhase::Bluetooth, ..l })
            &&& n == if l.has_mac {
                6int
            } else {
                5
            }
            &&& l.dhu ==> actions[0] == PassAction::ShutDownDevice && actions[1]
                == PassAction::ShutDownHu
            &&& !l.dhu ==> actions[0] == PassAction::UsbToDefault && actions[1]
                == PassAction::ShutDownDevice
            &&& l.has_mac ==> actions[2] == PassAction::Disassociate
            &&& actions[n - 3] == PassAction::AbortTasks
            &&& actions[n - 2] == (PassAction::NotifyRestart { action })
            &&& actions[n - 1] == PassAction::InitBluetooth
        }),
{
}

/// The event that a phase of passing through waits for.
pub open spec fn pass_waits_for(phase: PassPhase, event: PassEvent) -> bool {
    match event {
        PassEvent::BluetoothReady { .. } => phase == PassPhase::Bluetooth,
        PassEvent::HandshakeDone { .. } => phase == PassPhase::Handshake,
        PassEvent::DeviceAccepted { .. } => phase == PassPhase::Device,
        PassEvent::HuAccepted { .. } => phase == PassPhase::HuTcp,
        PassEvent::UsbConfigured { .. } => phase == PassPhase::HuUsb,
        PassEvent::AccessoryOpened { .. } => phase == PassPhase::Accessory,
        PassEvent::SessionEnded { .. } => phase == PassPhase::Session,
    }
}

/// Events that a phase does not wait for change nothing, and all others leave something to
/// do: the loop never ends.
pub proof fn law_pass_loop_never_ends(l: PassLoop, event: PassEvent)
    ensures
        pass_waits_for(l.phase, event) <==> l.step(event).1.len() > 0,
        !pass_waits_for(l.phase, event) ==> l.step(event).0 == l,
{
}

// ---------------------------------------------------------------------------
// Watching the transfer.

/// A report is due once more than the interval has gone by, and never without an interval. It
/// tells all bytes and those since the last one, each direction for itself.
pub proof fn law_reports_of_the_transfer(m: TransferMonitor, interval: u128, input: MonitorInput)
    requires
        m.counters_grew(input),
    ensures
        !m.report_due(None, input),
        m.report_due(Some(interval), input) <==> input.since_report > interval,
        m.report(input).usb_transferred_total == input.usb_bytes_out,
        m.report(input).tcp_transferred_total == input.tcp_bytes_out,
        m.report(input).usb_transferred_last + m.usb_bytes_out_last == input.usb_bytes_out,
        m.report(input).tcp_transferred_last + m.tcp_bytes_out_last == input.tcp_bytes_out,
{
}

/// A transfer has stalled exactly where more than the timeout has gone by since the last check
/// and at least one direction has not moved since. Reports have no part in it.
pub proof fn law_stalled_transfers(
    m: TransferMonitor,
    timeout: u128,
    input: MonitorInput,
    other: TransferMonitor,
)
    requires
        m.stall_usb_bytes_last == other.stall_usb_bytes_last,
        m.stall_tcp_bytes_last == other.stall_tcp_bytes_last,
    ensures
        input.since_stall_check <= timeout ==> !m.stalled(timeout, input),
        input.since_stall_check > timeout && input.usb_bytes_out == m.stall_usb_bytes_last
            ==> m.stalled(timeout, input),
        input.since_stall_check > timeout && input.tcp_bytes_out == m.stall_tcp_bytes_last
            ==> m.stalled(timeout, input),
        input.usb_bytes_out != m.stall_usb_bytes_last && input.tcp_bytes_out
            != m.stall_tcp_bytes_last ==> !m.stalled(timeout, input),
        m.stalled(timeout, input) == other.stalled(timeout, input),
{
}

/// What the monitor remembers: the counters of the last report, those of the last check that
/// was passed, and each only then.
pub proof fn law_monitor_remembers(
    m: TransferMonitor,
    interval: Option<u128>,
    timeout: u128,
    input: MonitorInput,
)
    ensures
        ({
            let after = m.after(interval, timeout, input);
            let checked = input.since_stall_check > timeout && !m.stalled(timeout, input);
            &&& m.report_due(interval, input) ==> after.usb_bytes_out_last == input.usb_bytes_out
                && after.tcp_bytes_out_last == input.tcp_bytes_out
            &&& !m.report_due(interval, input) ==> after.usb_bytes_out_last == m.usb_bytes_out_last
                && after.tcp_bytes_out_last == m.tcp_bytes_out_last
            &&& checked ==> after.stall_usb_bytes_last == input.usb_bytes_out
                && after.stall_tcp_bytes_last == input.tcp_bytes_out
            &&& !checked ==> after.stall_usb_bytes_last == m.stall_usb_bytes_last
                && after.stall_tcp_bytes_last == m.stall_tcp_bytes_last
        }),
{
}

// ---------------------------------------------------------------------------
// The network.

/// The address that the mobile device is told is that of the first interface with the name and
/// an IPv4 address; interfaces before it do not count, whatever they are, and the default is
/// told where there is none.
pub proof fn law_first_interface_counts(
    interfaces: Seq<Interface>,
    name: Seq<char>,
    default_addr: Seq<char>,
    k: int,
)
    ensures
        0 <= k < interfaces.len() && interfaces[k].name@ == name && !interfaces[k].scoped && (
        forall|j: int|
            0 <= j < k ==> (#[trigger] interfaces[j]).name@ != name || interfaces[j].scoped)
            ==> io_uring::wlan_address(interfaces, name, default_addr) == interfaces[k].address@,
        (forall|j: int|
            0 <= j < interfaces.len() ==> (#[trigger] interfaces[j]).name@ != name
                || interfaces[j].scoped) ==> io_uring::wlan_address(interfaces, name, default_addr)
            == default_addr,
{
    if 0 <= k < interfaces.len() && interfaces[k].name@ == name && !interfaces[k].scoped && (
    forall|j: int|
        0 <= j < k ==> (#[trigger] interfaces[j]).name@ != name || interfaces[j].scoped) {
        lemma_first_interface(interfaces, name, 0, k);
    }
    if forall|j: int|
        0 <= j < interfaces.len() ==> (#[trigger] interfaces[j]).name@ != name
            || interfaces[j].scoped {
        lemma_first_interface(interfaces, name, 0, interfaces.len() as int);
    }
}

proof fn lemma_first_interface(interfaces: Seq<Interface>, name: Seq<char>, i: int, k: int)
    requires
        0 <= i <= k <= interfaces.len(),
        k < interfaces.len() ==> interfaces[k].name@ == name && !interfaces[k].scoped,
        forall|j: int|
            i <= j < k ==> (#[trigger] interfaces[j]).name@ != name || interfaces[j].scoped,
    ensures
        io_uring::first_interface(interfaces, name, i) == k,
    decreases k - i,
{
    if i < k {
        assert(interfaces[i].name@ != name || interfaces[i].scoped);
        lemma_first_interface(interfaces, name, i + 1, k);
    }
}

/// A row of the address table is about an address exactly where the first of at least four
/// columns is that address; the fourth is then the hardware address.
pub proof fn law_rows_of_the_address_table(row: Seq<char>, ip: (u8, u8, u8, u8))
    ensures
        ({
            let columns = text::words(row);
            let dotted = text::decimal(ip.0 as int) + "."@ + text::decimal(ip.1 as int) + "."@
                + text::decimal(ip.2 as int) + "."@ + text::decimal(ip.3 as int);
            &&& columns.len() >= 4 && columns[0] == dotted ==> io_uring::arp_column(row, ip)
                == Some(columns[3])
            &&& columns.len() < 4 || columns[0] != dotted ==> io_uring::arp_column(row, ip) is None
        }),
{
    reveal_strlit(".");
    assert("."@ =~= seq!['.']);
}

/// The hardware address is that of the first row about the address that can be read: rows
/// before it that are about another one or cannot be read do not count, and later ones neither.
pub proof fn law_first_readable_row_counts(
    rows: Seq<Seq<char>>,
    ip: (u8, u8, u8, u8),
    i: int,
    k: int,
)
    requires
        0 <= i <= k <= rows.len(),
        forall|j: int|
            i <= j < k ==> (io_uring::arp_column(#[trigger] rows[j], ip) matches Some(c)
                ==> io_uring::parsed_mac(c) is None),
    ensures
        k == rows.len() ==> io_uring::arp_lookup(rows, ip, i) is None,
        k < rows.len() ==> (io_uring::arp_column(rows[k], ip) matches Some(c) ==> (
        io_uring::parsed_mac(c) is Some ==> io_uring::arp_lookup(rows, ip, i)
            == io_uring::parsed_mac(c))),
    decreases k - i,
{
    if i < k {
        assert(io_uring::arp_column(rows[i], ip) matches Some(c) ==> io_uring::parsed_mac(c)
            is None);
        law_first_readable_row_counts(rows, ip, i + 1, k);
    }
}

// ---------------------------------------------------------------------------
// Media streams.

/// How long the parts of a media stream are: four bytes name the codec, twelve describe the
/// session and twelve head every frame, whose length they tell; at the end nothing is read.
pub proof fn law_parts_of_a_media_stream(header: scrcpy_media::ScrcpyMediaHeader)
    ensures
        media_session::part_size(MediaPhase::Codec) == 4,
        media_session::part_size(MediaPhase::Session) == 12,
        media_session::part_size(MediaPhase::Header) == 12,
        media_session::part_size(MediaPhase::Frame { header }) == header.size,
        media_session::part_size(MediaPhase::Slot { frame: header }) == header.size,
        media_session::part_size(MediaPhase::Ended) == 0,
{
}

/// How a media stream begins. Pictures must be H.264 and sound raw or AAC, by the name that
/// the stream begins with. Of pictures the session is described next; then headers and frames
/// take turns. A stream of another codec ends the server, and one of sound the session, too.
pub proof fn law_media_streams_begin(
    s: MediaSession,
    data: Seq<u8>,
    flow: MediaFlow,
    max: nat,
)
    ensures
        ({
            let d = s.decision(data, flow, max);
            let name = scrcpy_media::printable(scrcpy_media::utf8_lossy(data));
            let video = s.kind == MediaKind::Video;
            &&& s.phase == MediaPhase::Codec && video && name == "h264"@ ==> d.phase
                == MediaPhase::Session && d.action == MediaActionView::Read
            &&& s.phase == MediaPhase::Codec && video && name != "h264"@ ==> d.phase
                == MediaPhase::Ended && d.action == MediaActionView::Stop
            &&& s.phase == MediaPhase::Codec && !video && (name == "raw"@ || name == "aac"@)
                ==> d.phase == MediaPhase::Header && d.action == MediaActionView::Read
            &&& s.phase == MediaPhase::Codec && !video && name != "raw"@ && name != "aac"@
                ==> d.phase == MediaPhase::Ended && d.action == MediaActionView::CancelAndStop
            &&& s.phase == MediaPhase::Session ==> d.phase == MediaPhase::Header && d.action
                == MediaActionView::Read
            &&& s.phase == MediaPhase::Header ==> d.phase == (MediaPhase::Frame {
                header: scrcpy_media::header_of(data),
            }) && d.action == MediaActionView::Read
            &&& s.phase == MediaPhase::Ended ==> d.phase == MediaPhase::Ended && d.action
                == MediaActionView::Stop
            &&& !(s.phase is Frame) && !(s.phase is Slot) ==> d.flow == flow
        }),
{
}

/// What becomes of a frame that was read. While the recording is paused, or where it is empty,
/// it is dropped. The codec's configuration, and everything where acknowledgements do not
/// count, is sent at once and takes no place. Another frame is sent where a place is free,
/// which it takes, and waits otherwise. What is sent are the packets of this frame on the
/// channel of the server, and then the next header is read.
pub proof fn law_frames_are_sent_or_wait(
    s: MediaSession,
    header: scrcpy_media::ScrcpyMediaHeader,
    data: Seq<u8>,
    flow: MediaFlow,
    max: nat,
)
    requires
        s.phase == (MediaPhase::Frame { header }),
        flow.window.well_formed(),
    ensures
        ({
            let d = s.decision(data, flow, max);
            let packets = scrcpy_media::media_packets(
                s.sid,
                header,
                scrcpy_media::chunked(data, max),
            );
            let room = flow.window.outstanding < flow.window.capacity;
            let flows = !flow.paused && header.size > 0;
            &&& !flows ==> d.phase == MediaPhase::Header && d.action == MediaActionView::Read
                && d.flow == flow
            &&& flows && (header.config || flow.ignore_ack) ==> d.action == (
            MediaActionView::Send { packets }) && d.flow == flow && d.phase == MediaPhase::Header
            &&& flows && !header.config && !flow.ignore_ack && room ==> d.action == (
            MediaActionView::Send { packets }) && d.phase == MediaPhase::Header
                && d.flow.window.outstanding == flow.window.outstanding + 1
                && d.flow.window.capacity == flow.window.capacity && d.flow.paused == flow.paused
                && d.flow.ignore_ack == flow.ignore_ack
            &&& flows && !header.config && !flow.ignore_ack && !room ==> d.action
                == MediaActionView::AwaitAck && d.flow == flow && d.phase == (MediaPhase::Slot {
                frame: header,
            })
        }),
{
}

/// Video and sound are sent alike once their streams have begun, and what the stream held
/// before does not count.
pub proof fn law_kinds_of_media_are_sent_alike(
    a: MediaSession,
    b: MediaSession,
    data: Seq<u8>,
    flow: MediaFlow,
    max: nat,
)
    requires
        a.phase == b.phase,
        a.sid == b.sid,
        a.phase != MediaPhase::Codec,
    ensures
        a.decision(data, flow, max) == b.decision(data, flow, max),
{
}

/// A frame is cut from its start into pieces of the largest allowed length; only the last may
/// be shorter.
pub proof fn law_frames_are_cut_from_the_start(data: Seq<u8>, max: nat)
    requires
        max > 0,
        data.len() > 0,
    ensures
        scrcpy_media::chunked(data, max).len() > 0,
        data.len() <= max ==> scrcpy_media::chunked(data, max).len() == 1
            && scrcpy_media::chunked(data, max)[0] == data,
        data.len() > max ==> scrcpy_media::chunked(data, max)[0] == data.take(max as int)
            && scrcpy_media::chunked(data, max).skip(1) == scrcpy_media::chunked(
            data.skip(max as int),
            max,
        ),
{
    if data.len() > max {
        let rest = scrcpy_media::chunked(data.skip(max as int), max);
        assert(scrcpy_media::chunked(data, max).skip(1) =~= rest);
    }
}

} // verus!
