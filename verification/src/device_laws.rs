//! What the devices around a session are told: over Bluetooth and as an input device.
use vstd::prelude::*;

use crate::bluetooth;
use crate::bluetooth::{
    AdvertisementContent, Advertising, AdvertisingStep, BtProfile, ClosingAction, ConnectAttempts,
    ConnectPlan, ConnectStep, HandshakeError, HandshakeMessage, HandshakeStage, MessageId,
};
use crate::config::WifiConfig;
use crate::hid;
use crate::hid::{HidControlEvent, HidError, HidPeripheral, HidReport};
use crate::wire;

verus! {

// ---------------------------------------------------------------------------
// Bluetooth.

/// The numbers by which Bluetooth knows the profiles.
pub proof fn law_profile_numbers()
    ensures
        bluetooth::AAWG_PROFILE_UUID == 0x4de17a0052cb11e6bdf40800200c9a66,
        bluetooth::BTLE_PROFILE_UUID == 0x9b3f6c10a4d2418ea2b90700300de8f4,
        bluetooth::HSP_HS_UUID == 0x0000110800001000800000805f9b34fb,
        bluetooth::HSP_AG_UUID == 0x0000111200001000800000805f9b34fb,
{
}

/// The wireless profile is always registered, as a server on channel 8, and first; the
/// headset profile follows exactly where this device is no dongle.
pub proof fn law_registered_profiles(dongle_mode: bool)
    ensures
        bluetooth::profiles_spec(dongle_mode).len() == if dongle_mode {
            1nat
        } else {
            2
        },
        bluetooth::profiles_spec(dongle_mode)[0] == (BtProfile::AaWireless {
            uuid: 0x4de17a0052cb11e6bdf40800200c9a66,
            channel: 8,
        }),
        !dongle_mode ==> bluetooth::profiles_spec(dongle_mode)[1] == (BtProfile::Headset {
            uuid: 0x0000110800001000800000805f9b34fb,
        }),
{
}

/// A configured name is taken as it is, whatever else is known. Without one the adapter is
/// named by the program, with a hyphen and the end of the serial number where that is known.
pub proof fn law_name_of_the_adapter(
    alias: Option<String>,
    suffix: Option<String>,
    identity: Seq<char>,
)
    ensures
        ({
            let name = bluetooth::alias_spec(alias, suffix, identity);
            &&& alias matches Some(a) ==> name == a@
            &&& alias is None && suffix is None ==> name == identity
            &&& alias is None && suffix is Some ==> name.len() == identity.len() + 1 + suffix->0@.len()
                && name.take(identity.len() as int) == identity && name[identity.len() as int] == '-'
                && name.skip(identity.len() as int + 1) == suffix->0@
        }),
{
    let name = bluetooth::alias_spec(alias, suffix, identity);
    reveal_strlit("-");
    if alias is None && suffix is Some {
        assert(name.take(identity.len() as int) =~= identity);
        assert(name.skip(identity.len() as int + 1) =~= suffix->0@);
    }
}

/// The length of characters in UTF-8, by the ranges of their numbers.
pub proof fn law_width_of_characters(c: char, s: Seq<char>)
    ensures
        c as u32 <= 0x7F ==> bluetooth::utf8_width(c) == 1,
        0x80 <= c as u32 <= 0x7FF ==> bluetooth::utf8_width(c) == 2,
        0x800 <= c as u32 <= 0xFFFF ==> bluetooth::utf8_width(c) == 3,
        0x1_0000 <= c as u32 ==> bluetooth::utf8_width(c) == 4,
        bluetooth::utf8_len(Seq::empty()) == 0,
        bluetooth::utf8_len(seq![c] + s) == bluetooth::utf8_width(c) + bluetooth::utf8_len(s),
{
    assert((seq![c] + s).skip(1) =~= s);
}

/// An advertisement is tried three times with the same content and not a fourth time. One that
/// is accepted is not tried again, whatever failed before.
pub proof fn law_advertisements_are_tried_three_times(a: Advertising)
    requires
        a.well_formed(),
    ensures
        a.failed <= 2,
        a.step(true) == AdvertisingStep::Started,
        a.failed < 2 ==> a.step(false) == (AdvertisingStep::Retry { content: a.content })
            && a.after_failure() == (Advertising { failed: (a.failed + 1) as u8, ..a }),
        a.failed == 2 && a.fall_back && a.content == AdvertisementContent::WithServices ==> a.step(
            false,
        ) == (AdvertisingStep::Retry { content: AdvertisementContent::NameOnly })
            && a.after_failure().failed == 0 && a.after_failure().content
            == AdvertisementContent::NameOnly,
        a.failed == 2 && !(a.fall_back && a.content == AdvertisementContent::WithServices)
            ==> a.step(false) == AdvertisingStep::Failed,
{
}

/// Every device of the list is tried three times before the next one, going around from the
/// place to begin at; none is left out and none is tried in another turn.
pub proof fn law_devices_are_tried_in_turn(a: ConnectAttempts)
    requires
        a.well_formed(),
        a.i < a.n,
    ensures
        a.failed <= 2,
        a.current() == (ConnectStep::Try {
            index: if a.start_index % a.n + a.i < a.n {
                (a.start_index % a.n + a.i) as usize
            } else {
                (a.start_index % a.n + a.i - a.n) as usize
            },
        }),
        a.failed < 2 ==> a.after_failure() == (ConnectAttempts {
            failed: (a.failed + 1) as usize,
            ..a
        }),
        a.failed == 2 ==> a.after_failure() == (ConnectAttempts {
            failed: 0,
            i: (a.i + 1) as usize,
            ..a
        }),
        a.i + 1 == a.n && a.failed == 2 ==> a.after_failure().current() == ConnectStep::GiveUp,
{
    let n = a.n as int;
    let s = a.start_index as int;
    let i = a.i as int;
    vstd::arithmetic::div_mod::lemma_fundamental_div_mod(s, n);
    vstd::arithmetic::div_mod::lemma_mod_bound(s, n);
    let r = s % n;
    if r + i < n {
        vstd::arithmetic::div_mod::lemma_fundamental_div_mod_converse(s + i, n, s / n, r + i);
    } else {
        assert(n * (s / n + 1) == n * (s / n) + n) by (nonlinear_arith);
        vstd::arithmetic::div_mod::lemma_fundamental_div_mod_converse(
            s + i,
            n,
            s / n + 1,
            r + i - n,
        );
    }
}

/// The numbers of the messages of the handshake.
pub proof fn law_handshake_numbers()
    ensures
        bluetooth::message_number(MessageId::WifiStartRequest) == 1,
        bluetooth::message_number(MessageId::WifiInfoRequest) == 2,
        bluetooth::message_number(MessageId::WifiInfoResponse) == 3,
        bluetooth::message_number(MessageId::WifiVersionRequest) == 4,
        bluetooth::message_number(MessageId::WifiVersionResponse) == 5,
        bluetooth::message_number(MessageId::WifiConnectStatus) == 6,
        bluetooth::message_number(MessageId::WifiStartResponse) == 7,
        bluetooth::STAGES == 5,
        bluetooth::HEADER_LEN == 4,
{
}

/// A message of the handshake, by its bytes: two for the length of the data, two for the
/// number, then the data.
pub proof fn law_handshake_message_by_its_bytes(id: MessageId, data: Seq<u8>)
    requires
        data.len() <= 0xFFFF,
    ensures
        ({
            let f = bluetooth::handshake_frame(id, data);
            &&& f.len() == data.len() + 4
            &&& f[0] * 256 + f[1] == data.len()
            &&& f[2] * 256 + f[3] == bluetooth::message_number(id)
            &&& f.skip(4) == data
        }),
{
    bluetooth::law_handshake_round_trip(id, data);
}

/// The stages of the handshake: the mobile device is told where to connect to, asks how,
/// is told the name, the key and the address of the network, answers, and reports how it went.
/// There is nothing before the first and after the fifth.
pub proof fn law_stages_of_the_handshake(stage: u8, wifi: WifiConfig, s: HandshakeStage)
    requires
        bluetooth::is_stage(stage, wifi, s),
    ensures
        stage == 1 ==> (s matches HandshakeStage::Send { id, message } && id
            == MessageId::WifiStartRequest && (message matches HandshakeMessage::StartRequest {
            ip_address,
            port,
        } && ip_address@ == wifi.ip_addr@ && port == wifi.port)),
        stage == 2 ==> s == (HandshakeStage::Read { id: MessageId::WifiInfoRequest }),
        stage == 3 ==> (s matches HandshakeStage::Send { id, message } && id
            == MessageId::WifiInfoResponse && (message matches HandshakeMessage::InfoResponse {
            ssid,
            key,
            bssid,
        } && ssid@ == wifi.ssid@ && key@ == wifi.wpa_key@ && bssid@ == wifi.bssid@)),
        stage == 4 ==> s == (HandshakeStage::Read { id: MessageId::WifiStartResponse }),
        stage == 5 ==> s == (HandshakeStage::Read { id: MessageId::WifiConnectStatus }),
        stage == 0 || stage > 5 ==> s == HandshakeStage::Done,
{
}

/// Nobody is connected to once the first session is over, or without an address. The address
/// zero, wherever it stands, means all known devices; otherwise the addresses themselves are
/// meant.
pub proof fn law_whom_to_connect_to(addresses: Seq<u64>, i: int)
    ensures
        bluetooth::plan_for(addresses, true) == ConnectPlan::Wait,
        bluetooth::plan_for(Seq::empty(), false) == ConnectPlan::Wait,
        0 <= i < addresses.len() && addresses[i] == 0 ==> bluetooth::plan_for(addresses, false)
            == ConnectPlan::KnownDevices,
        addresses.len() > 0 && (forall|k: int| 0 <= k < addresses.len() ==> addresses[k] != 0)
            ==> bluetooth::plan_for(addresses, false) == ConnectPlan::Configured,
{
}

/// Next time the search begins with the device behind the one that is connected, or with the
/// first where that was the last.
pub proof fn law_next_search_begins_behind(a: ConnectAttempts)
    requires
        a.well_formed(),
        a.i < a.n,
    ensures
        a.current() matches ConnectStep::Try { index } && (if index + 1 < a.n {
            a.next_index() == index + 1
        } else {
            a.next_index() == 0
        }),
{
    law_devices_are_tried_in_turn(a);
    let n = a.n as int;
    let index = a.index();
    vstd::arithmetic::div_mod::lemma_mod_bound(a.start_index + a.i, n);
    if index + 1 < n {
        vstd::arithmetic::div_mod::lemma_small_mod((index + 1) as nat, n as nat);
    } else {
        vstd::arithmetic::div_mod::lemma_mod_self_0(n);
    }
}

/// A header tells the length of its data in the first two bytes and its number in the next
/// two, most significant byte first. Every message counts with four bytes more than its data.
/// Only where the status of the connection is awaited, a second byte other than zero is a
/// failure, whatever the others are.
pub proof fn law_handshake_messages_are_read(id: MessageId, buf: Seq<u8>, body: Seq<u8>)
    requires
        buf.len() >= 4,
        body.len() <= 0xFFFF,
    ensures
        bluetooth::header_in(buf, id).len == buf[0] * 256 + buf[1],
        bluetooth::header_in(buf, id).expected <==> buf[2] * 256 + buf[3]
            == bluetooth::message_number(id),
        id != MessageId::WifiConnectStatus || body.len() < 2 || body[1] == 0
            ==> bluetooth::message_result(id, body) == Ok::<usize, HandshakeError>(
            (body.len() + 4) as usize,
        ),
        id == MessageId::WifiConnectStatus && body.len() >= 2 && body[1] != 0
            ==> bluetooth::message_result(id, body) is Err,
{
}

/// The stream is shut down first, then the device is disconnected; the adapter is switched off
/// last, exactly where that is configured.
pub proof fn law_end_of_the_handshake(poweroff: bool)
    ensures
        bluetooth::closing(false).len() == 2,
        bluetooth::closing(true).len() == 3,
        bluetooth::closing(poweroff)[0] == ClosingAction::ShutDownStream,
        bluetooth::closing(poweroff)[1] == ClosingAction::DisconnectDevice,
        bluetooth::closing(true)[2] == ClosingAction::PowerOff,
{
}

// ---------------------------------------------------------------------------
// The input device.

/// The numbers by which Bluetooth knows the attributes of an input device.
pub proof fn law_attribute_numbers()
    ensures
        hid::HID_SERVICE == 0x0000181200001000800000805f9b34fb,
        hid::HID_INFO_CHAR == 0x00002a4a00001000800000805f9b34fb,
        hid::REPORT_MAP_CHAR == 0x00002a4b00001000800000805f9b34fb,
        hid::HID_CONTROL_POINT_CHAR == 0x00002a4c00001000800000805f9b34fb,
        hid::REPORT_CHAR == 0x00002a4d00001000800000805f9b34fb,
        hid::PROTOCOL_MODE_CHAR == 0x00002a4e00001000800000805f9b34fb,
        hid::HID_APPEARANCE == 0x03C0,
{
}

/// The report of a touch, by its bytes: the number of the report, one contact or none, the
/// contact 0, both flags while the finger is down and none otherwise, then the place, least
/// significant byte first, moved onto the screen where it is beyond.
pub proof fn law_touch_report_by_its_bytes(
    width: u16,
    height: u16,
    down: bool,
    x: u16,
    y: u16,
)
    requires
        width > 0,
        height > 0,
    ensures
        ({
            let r = hid::touch_report(width, height, down, x, y);
            &&& r.len() == 8
            &&& r[0] == 4
            &&& down ==> r[1] == 1 && r[3] == 3
            &&& !down ==> r[1] == 0 && r[3] == 0
            &&& r[2] == 0
            &&& x < width ==> r[4] + 256 * r[5] == x
            &&& x >= width ==> r[4] + 256 * r[5] == width - 1
            &&& y < height ==> r[6] + 256 * r[7] == y
            &&& y >= height ==> r[6] + 256 * r[7] == height - 1
        }),
{
    let r = hid::touch_report(width, height, down, x, y);
    let a = wire::le16(hid::on_axis(x, width));
    let b = wire::le16(hid::on_axis(y, height));
    assert(r[4] == a[0] && r[5] == a[1] && r[6] == b[0] && r[7] == b[1]);
}

/// Places are never beyond the last one, and those on the screen stay where they are. On a
/// screen of no size every place is the first.
pub proof fn law_places_stay_on_the_axis(v: u16, length: u16)
    ensures
        length > 0 ==> hid::axis_max(length) == length - 1 && hid::on_axis(v, length) < length,
        v < length ==> hid::on_axis(v, length) == v,
        length > 0 && v >= length ==> hid::on_axis(v, length) == length - 1,
        hid::axis_max(0) == 0 && hid::on_axis(v, 0) == 0,
{
}

/// The report of keys, by its bytes: the number of the report, the modifiers, a zero and the
/// keys in their order.
pub proof fn law_key_report_by_its_bytes(modifier: u8, keys: Seq<u8>)
    ensures
        ({
            let r = hid::key_report(modifier, keys);
            &&& r.len() == keys.len() + 3
            &&& r[0] == 1 && r[1] == modifier && r[2] == 0
            &&& r.skip(3) == keys
        }),
{
    assert(hid::key_report(modifier, keys).skip(3) =~= keys);
}

/// Descriptors of screens of different sizes differ in the four bytes of the largest
/// coordinates only, which stand where the size of the descriptor's parts puts them, least
/// significant byte first.
pub proof fn law_descriptors_differ_in_the_size(w: u16, h: u16, w2: u16, h2: u16, i: int)
    requires
        0 <= i < hid::report_descriptor(w, h).len(),
    ensures
        ({
            let d = hid::report_descriptor(w, h);
            let e = hid::report_descriptor(w2, h2);
            &&& d.len() == 84 && e.len() == 84
            &&& !(51 <= i < 53) && !(60 <= i < 62) ==> d[i] == e[i]
            &&& w > 0 ==> d[51] + 256 * d[52] == w - 1
            &&& h > 0 ==> d[60] + 256 * d[61] == h - 1
        }),
{
    let d = hid::report_descriptor(w, h);
    let x = wire::le16(hid::axis_max(w));
    let y = wire::le16(hid::axis_max(h));
    assert(d[51] == x[0] && d[52] == x[1] && d[60] == y[0] && d[61] == y[1]);
}

/// The same of the other two descriptors, which have a keyboard behind the screen.
pub proof fn law_other_descriptors_differ_in_the_size(w: u16, h: u16, w2: u16, h2: u16, i: int)
    ensures
        ({
            let d = hid::report_descriptor_v2(w, h);
            let e = hid::report_descriptor_v2(w2, h2);
            let at = hid::touch_head_v2().len() as int;
            let at_y = at + 2 + hid::touch_middle_v2().len();
            &&& d.len() == e.len()
            &&& 0 <= i < d.len() && !(at <= i < at + 2) && !(at_y <= i < at_y + 2) ==> d[i] == e[i]
            &&& w > 0 ==> d[at] + 256 * d[at + 1] == w - 1
            &&& h > 0 ==> d[at_y] + 256 * d[at_y + 1] == h - 1
        }),
        ({
            let d = hid::report_descriptor_old(w, h);
            let e = hid::report_descriptor_old(w2, h2);
            let at = hid::touch_head_old().len() as int;
            let at_y = at + 2 + hid::touch_middle_v2().len();
            &&& d.len() == e.len()
            &&& 0 <= i < d.len() && !(at <= i < at + 2) && !(at_y <= i < at_y + 2) ==> d[i] == e[i]
            &&& w > 0 ==> d[at] + 256 * d[at + 1] == w - 1
            &&& h > 0 ==> d[at_y] + 256 * d[at_y + 1] == h - 1
        }),
{
    let x = wire::le16(hid::axis_max(w));
    let y = wire::le16(hid::axis_max(h));
    let d = hid::report_descriptor_v2(w, h);
    let at = hid::touch_head_v2().len() as int;
    let at_y = at + 2 + hid::touch_middle_v2().len();
    assert(d[at] == x[0] && d[at + 1] == x[1] && d[at_y] == y[0] && d[at_y + 1] == y[1]);
    let o = hid::report_descriptor_old(w, h);
    let oa = hid::touch_head_old().len() as int;
    let oy = oa + 2 + hid::touch_middle_v2().len();
    assert(o[oa] == x[0] && o[oa + 1] == x[1] && o[oy] == y[0] && o[oy + 1] == y[1]);
}

/// The attributes of the input device. Its version and the map of its reports can only be
/// read, and the map is the descriptor of the screen's size. Clients can subscribe to exactly
/// the two input reports, whose references name the numbers that the reports begin with; the
/// third report, of the keyboard, is written.
pub proof fn law_attributes_of_the_input_device(
    width: u16,
    height: u16,
    down: bool,
    x: u16,
    y: u16,
    modifier: u8,
    keys: Seq<u8>,
)
    ensures
        ({
            let a = hid::hid_attributes(width, height);
            let touch = hid::touch_report(width, height, down, x, y)[0];
            let key = hid::key_report(modifier, keys)[0];
            &&& a.len() == 7
            &&& a[0].read == Some(seq![0x11u8, 0x01, 0x00, 0x01]) && a[0].uuid == hid::HID_INFO_CHAR
            &&& a[1].read == Some(hid::report_descriptor(width, height)) && a[1].uuid
                == hid::REPORT_MAP_CHAR
            &&& a[2].report_reference == Some((key, 1u8)) && a[2].notify
            &&& a[3].report_reference == Some((key, 2u8)) && !a[3].notify && a[3].write
            &&& a[4].report_reference == Some((touch, 1u8)) && a[4].notify
            &&& a[5].uuid == hid::HID_CONTROL_POINT_CHAR && a[5].write_without_response
                && !a[5].write && a[5].read is None
            &&& a[6].uuid == hid::PROTOCOL_MODE_CHAR && a[6].read == Some(seq![1u8]) && a[6].write
                && a[6].write_without_response
            &&& forall|i: int|
                2 <= i <= 4 ==> (#[trigger] a[i]).uuid == hid::REPORT_CHAR && a[i].read is None
            &&& forall|i: int| 0 <= i < 7 ==> ((#[trigger] a[i]).notify <==> i == 2 || i == 4)
            &&& !a[0].write && !a[1].write && !a[2].write && !a[4].write
            &&& forall|i: int|
                0 <= i < 7 ==> ((#[trigger] a[i]).write_without_response <==> i == 3 || i >= 5)
            &&& forall|i: int|
                0 <= i < 7 ==> ((#[trigger] a[i]).report_reference is Some <==> 2 <= i <= 4)
        }),
{
}

/// Clients of the keyboard and of the touch pad come and go for themselves: a subscription, an
/// end and a report that does not arrive concern the one report only, and the size of the
/// screen never changes.
pub proof fn law_listeners_are_kept_apart(
    p: HidPeripheral,
    report: HidReport,
    event: HidControlEvent,
    sent: bool,
)
    ensures
        ({
            let c = p.after_control(report, event);
            let w = p.after_write(report, sent);
            let keyboard = report == HidReport::Keyboard;
            &&& keyboard ==> c.touchpad_writer == p.touchpad_writer && w.touchpad_writer
                == p.touchpad_writer
            &&& !keyboard ==> c.keyboard_writer == p.keyboard_writer && w.keyboard_writer
                == p.keyboard_writer
            &&& keyboard && event == HidControlEvent::Notify ==> c.keyboard_writer
            &&& keyboard && event == HidControlEvent::Ended ==> !c.keyboard_writer
            &&& !keyboard && event == HidControlEvent::Notify ==> c.touchpad_writer
            &&& !keyboard && event == HidControlEvent::Ended ==> !c.touchpad_writer
            &&& event == HidControlEvent::Write ==> c == p
            &&& sent ==> w == p
            &&& !sent && keyboard ==> !w.keyboard_writer
            &&& !sent && !keyboard ==> !w.touchpad_writer
            &&& c.width == p.width && c.height == p.height && w.width == p.width && w.height
                == p.height
        }),
{
}

/// A report goes out exactly where a client listens to that report, whoever listens to the
/// other one. A report that cannot be handed over is a failure; one that can is none. The end
/// of a control stream is the only thing that it does not go on after.
pub proof fn law_reports_need_their_listener(p: HidPeripheral, sent: bool)
    ensures
        p.touch_goes_out() <==> p.touchpad_writer,
        p.key_goes_out() <==> p.keyboard_writer,
        hid::delivery(sent) is Ok <==> sent,
        hid::delivery(false) == Err::<(), HidError>(HidError::NotificationFailed),
        hid::stream_goes_on(HidControlEvent::Notify) && hid::stream_goes_on(HidControlEvent::Write),
        !hid::stream_goes_on(HidControlEvent::Ended),
{
}

} // verus!
