//! The Bluetooth input device: its descriptors, its reports and its attributes.
use vstd::prelude::*;

use crate::wire;

verus! {

pub const HID_SERVICE: u128 = 0x0000181200001000800000805f9b34fb;

pub const HID_INFO_CHAR: u128 = 0x00002a4a00001000800000805f9b34fb;

pub const REPORT_MAP_CHAR: u128 = 0x00002a4b00001000800000805f9b34fb;

pub const HID_CONTROL_POINT_CHAR: u128 = 0x00002a4c00001000800000805f9b34fb;

pub const REPORT_CHAR: u128 = 0x00002a4d00001000800000805f9b34fb;

pub const PROTOCOL_MODE_CHAR: u128 = 0x00002a4e00001000800000805f9b34fb;

/// How the advertised device looks: a generic input device.
pub const HID_APPEARANCE: u16 = 0x03C0;

pub const TOUCHPAD_ID: u8 = 4;

pub const KEYBOARD_ID: u8 = 1;

// ---------------------------------------------------------------------------
// Report descriptors.

/// The largest coordinate along an axis of that length.
pub open spec fn axis_max(length: u16) -> u16 {
    if length > 0 {
        (length - 1) as u16
    } else {
        0
    }
}

fn last_coordinate(length: u16) -> (r: u16)
    ensures
        r == axis_max(length),
{
    if length > 0 {
        length - 1
    } else {
        0
    }
}

/// A touch screen with one finger: two flags, the number of the contact, up to where the
/// largest X follows.
pub open spec fn touch_head() -> Seq<u8> {
    seq![
        0x05u8, 0x0D, 0x09, 0x04, 0xA1, 0x01,  // Digitizer, Touch Screen, Application
        0x85, 0x01,  // Report ID (1)
        0x09, 0x22, 0xA1, 0x00,  // Finger, Physical
        0x09, 0x42, 0x09, 0x32,  // Tip Switch, In Range
        0x15, 0x00, 0x25, 0x01, 0x75, 0x01, 0x95, 0x02, 0x81, 0x02,
        0x75, 0x06, 0x95, 0x01, 0x81, 0x03,  // padding
        0x75, 0x08, 0x95, 0x01, 0x09, 0x51, 0x81, 0x02,  // Contact Identifier
        0x05, 0x01, 0x09, 0x30, 0x75, 0x10, 0x95, 0x01, 0x15, 0x00, 0x26,  // X
    ]
}

/// From behind the largest X to where the largest Y follows.
pub open spec fn touch_middle() -> Seq<u8> {
    seq![0x81u8, 0x02, 0x09, 0x31, 0x15, 0x00, 0x26]
}

/// From behind the largest Y to the end, with the number of contacts.
pub open spec fn touch_tail() -> Seq<u8> {
    seq![
        0x75u8, 0x10, 0x95, 0x01, 0x81, 0x02, 0xC0,
        0x05, 0x0D, 0x09, 0x54, 0x15, 0x00, 0x25, 0x01, 0x75, 0x08, 0x95, 0x01, 0x81, 0x02,
        0xC0,
    ]
}

/// The descriptor of a touch screen of that size.
pub open spec fn report_descriptor(width: u16, height: u16) -> Seq<u8> {
    touch_head() + wire::le16(axis_max(width)) + touch_middle() + wire::le16(axis_max(height))
        + touch_tail()
}

/// As `touch_head`, with a flag for confidence and limits for the contact's number.
pub open spec fn touch_head_v2() -> Seq<u8> {
    seq![
        0x05u8, 0x0D, 0x09, 0x04, 0xA1, 0x01,  // Digitizer, Touch Screen, Application
        0x85, 0x01,  // Report ID (1)
        0x09, 0x22, 0xA1, 0x02,  // Finger, Logical
        0x09, 0x42, 0x15, 0x00, 0x25, 0x01, 0x75, 0x01, 0x95, 0x01, 0x81, 0x02,  // Tip Switch
        0x09, 0x32, 0x75, 0x01, 0x95, 0x01, 0x81, 0x02,  // In Range
        0x09, 0x47, 0x75, 0x01, 0x95, 0x01, 0x81, 0x02,  // Confidence
        0x75, 0x05, 0x95, 0x01, 0x81, 0x03,  // padding
        0x09, 0x51, 0x75, 0x08, 0x95, 0x01, 0x15, 0x00, 0x25, 0xFF, 0x81, 0x02,  // Contact ID
        0x05, 0x01, 0x09, 0x30, 0x75, 0x10, 0x95, 0x01, 0x15, 0x00, 0x26,  // X
    ]
}

/// From behind the largest X to where the largest Y follows.
pub open spec fn touch_middle_v2() -> Seq<u8> {
    seq![0x81u8, 0x02, 0x09, 0x31, 0x75, 0x10, 0x95, 0x01, 0x15, 0x00, 0x26]
}

/// From behind the largest Y to the end of the touch screen.
pub open spec fn touch_tail_v2() -> Seq<u8> {
    seq![
        0x81u8, 0x02, 0xC0,
        0x05, 0x0D, 0x09, 0x54, 0x15, 0x00, 0x25, 0x01, 0x75, 0x08, 0x95, 0x01, 0x81, 0x02,
        0xC0,
    ]
}

/// A keyboard with modifiers and six keys, as report 2.
pub open spec fn keyboard_part() -> Seq<u8> {
    seq![
        0x05u8, 0x01, 0x09, 0x06, 0xA1, 0x01, 0x85, 0x02,
        0x05, 0x07, 0x19, 0xE0, 0x29, 0xE7, 0x15, 0x00, 0x25, 0x01, 0x75, 0x01, 0x95, 0x08, 0x81, 0x02,
        0x95, 0x01, 0x75, 0x08, 0x81, 0x03,
        0x95, 0x06, 0x75, 0x08, 0x15, 0x00, 0x25, 0x65,
        0x05, 0x07, 0x19, 0x00, 0x29, 0x65, 0x81, 0x00,
        0xC0,
    ]
}

/// The descriptor of a touch screen of that size with a keyboard.
pub open spec fn report_descriptor_v2(width: u16, height: u16) -> Seq<u8> {
    touch_head_v2() + wire::le16(axis_max(width)) + touch_middle_v2() + wire::le16(axis_max(height))
        + touch_tail_v2() + keyboard_part()
}

/// As `touch_head`, with the tip switch alone.
pub open spec fn touch_head_old() -> Seq<u8> {
    seq![
        0x05u8, 0x0D, 0x09, 0x04, 0xA1, 0x01, 0x85, 0x01, 0x09, 0x22, 0xA1, 0x00,
        0x09, 0x42, 0x15, 0x00, 0x25, 0x01, 0x75, 0x01, 0x95, 0x01, 0x81, 0x02, 0x95, 0x07, 0x81, 0x03,
        0x05, 0x01, 0x09, 0x30, 0x75, 0x10, 0x95, 0x01, 0x15, 0x00, 0x26,
    ]
}

/// The descriptor of a plain touch screen of that size with a keyboard.
pub open spec fn report_descriptor_old(width: u16, height: u16) -> Seq<u8> {
    touch_head_old() + wire::le16(axis_max(width)) + touch_middle_v2() + wire::le16(
        axis_max(height),
    ) + seq![0x81u8, 0x02, 0xC0, 0xC0] + keyboard_part()
}

fn keyboard_bytes() -> (r: Vec<u8>)
    ensures
        r@ == keyboard_part(),
{
    let r: Vec<u8> = vec![
        0x05, 0x01, 0x09, 0x06, 0xA1, 0x01, 0x85, 0x02,
        0x05, 0x07, 0x19, 0xE0, 0x29, 0xE7, 0x15, 0x00, 0x25, 0x01, 0x75, 0x01, 0x95, 0x08, 0x81, 0x02,
        0x95, 0x01, 0x75, 0x08, 0x81, 0x03,
        0x95, 0x06, 0x75, 0x08, 0x15, 0x00, 0x25, 0x65,
        0x05, 0x07, 0x19, 0x00, 0x29, 0x65, 0x81, 0x00,
        0xC0,
    ];
    assert(r@ =~= keyboard_part());
    r
}

fn touch_middle_v2_bytes() -> (r: Vec<u8>)
    ensures
        r@ == touch_middle_v2(),
{
    let r: Vec<u8> = vec![0x81, 0x02, 0x09, 0x31, 0x75, 0x10, 0x95, 0x01, 0x15, 0x00, 0x26];
    assert(r@ =~= touch_middle_v2());
    r
}

/// Builds the descriptor of a touch screen whose largest coordinates are `width - 1` and
/// `height - 1`. Reports of touches must stay within these bounds.
pub fn build_report_descriptor(width: u16, height: u16) -> (d: Vec<u8>)
    ensures
        d@ == report_descriptor(width, height),
{
    let mut d: Vec<u8> = vec![
        0x05, 0x0D, 0x09, 0x04, 0xA1, 0x01,
        0x85, 0x01,
        0x09, 0x22, 0xA1, 0x00,
        0x09, 0x42, 0x09, 0x32,
        0x15, 0x00, 0x25, 0x01, 0x75, 0x01, 0x95, 0x02, 0x81, 0x02,
        0x75, 0x06, 0x95, 0x01, 0x81, 0x03,
        0x75, 0x08, 0x95, 0x01, 0x09, 0x51, 0x81, 0x02,
        0x05, 0x01, 0x09, 0x30, 0x75, 0x10, 0x95, 0x01, 0x15, 0x00, 0x26,
    ];
    assert(d@ =~= touch_head());
    wire::push_le16(&mut d, last_coordinate(width));
    let mut middle: Vec<u8> = vec![0x81, 0x02, 0x09, 0x31, 0x15, 0x00, 0x26];
    assert(middle@ =~= touch_middle());
    d.append(&mut middle);
    wire::push_le16(&mut d, last_coordinate(height));
    let mut tail: Vec<u8> = vec![
        0x75, 0x10, 0x95, 0x01, 0x81, 0x02, 0xC0,
        0x05, 0x0D, 0x09, 0x54, 0x15, 0x00, 0x25, 0x01, 0x75, 0x08, 0x95, 0x01, 0x81, 0x02,
        0xC0,
    ];
    assert(tail@ =~= touch_tail());
    d.append(&mut tail);
    d
}

/// Builds the descriptor of a touch screen of that size with a keyboard.
pub fn build_report_descriptor_v2(width: u16, height: u16) -> (d: Vec<u8>)
    ensures
        d@ == report_descriptor_v2(width, height),
{
    let mut d: Vec<u8> = vec![
        0x05, 0x0D, 0x09, 0x04, 0xA1, 0x01,
        0x85, 0x01,
        0x09, 0x22, 0xA1, 0x02,
        0x09, 0x42, 0x15, 0x00, 0x25, 0x01, 0x75, 0x01, 0x95, 0x01, 0x81, 0x02,
        0x09, 0x32, 0x75, 0x01, 0x95, 0x01, 0x81, 0x02,
        0x09, 0x47, 0x75, 0x01, 0x95, 0x01, 0x81, 0x02,
        0x75, 0x05, 0x95, 0x01, 0x81, 0x03,
        0x09, 0x51, 0x75, 0x08, 0x95, 0x01, 0x15, 0x00, 0x25, 0xFF, 0x81, 0x02,
        0x05, 0x01, 0x09, 0x30, 0x75, 0x10, 0x95, 0x01, 0x15, 0x00, 0x26,
    ];
    assert(d@ =~= touch_head_v2());
    wire::push_le16(&mut d, last_coordinate(width));
    let mut middle = touch_middle_v2_bytes();
    d.append(&mut middle);
    wire::push_le16(&mut d, last_coordinate(height));
    let mut tail: Vec<u8> = vec![
        0x81, 0x02, 0xC0,
        0x05, 0x0D, 0x09, 0x54, 0x15, 0x00, 0x25, 0x01, 0x75, 0x08, 0x95, 0x01, 0x81, 0x02,
        0xC0,
    ];
    assert(tail@ =~= touch_tail_v2());
    d.append(&mut tail);
    let mut keyboard = keyboard_bytes();
    d.append(&mut keyboard);
    d
}

/// Builds the descriptor of a plain touch screen of that size with a keyboard.
pub fn build_report_descriptor_old(width: u16, height: u16) -> (d: Vec<u8>)
    ensures
        d@ == report_descriptor_old(width, height),
{
    let mut d: Vec<u8> = vec![
        0x05, 0x0D, 0x09, 0x04, 0xA1, 0x01, 0x85, 0x01, 0x09, 0x22, 0xA1, 0x00,
        0x09, 0x42, 0x15, 0x00, 0x25, 0x01, 0x75, 0x01, 0x95, 0x01, 0x81, 0x02, 0x95, 0x07, 0x81, 0x03,
        0x05, 0x01, 0x09, 0x30, 0x75, 0x10, 0x95, 0x01, 0x15, 0x00, 0x26,
    ];
    assert(d@ =~= touch_head_old());
    wire::push_le16(&mut d, last_coordinate(width));
    let mut middle = touch_middle_v2_bytes();
    d.append(&mut middle);
    wire::push_le16(&mut d, last_coordinate(height));
    let mut tail: Vec<u8> = vec![0x81, 0x02, 0xC0, 0xC0];
    assert(tail@ =~= seq![0x81u8, 0x02, 0xC0, 0xC0]);
    d.append(&mut tail);
    let mut keyboard = keyboard_bytes();
    d.append(&mut keyboard);
    d
}

// ---------------------------------------------------------------------------
// Reports.

/// Why a report was not sent.
#[derive(Clone, Copy, Debug, PartialEq, Eq, Structural)]
pub enum HidError {
    /// Nobody has subscribed to these reports.
    NotConnected,
    /// The subscriber is gone.
    NotificationFailed,
}

/// The two kinds of report.
#[derive(Clone, Copy, Debug, PartialEq, Eq, Structural)]
pub enum HidReport {
    Keyboard,
    Touchpad,
}

/// What the control stream of a report's attribute tells.
#[derive(Clone, Copy, Debug, PartialEq, Eq, Structural)]
pub enum HidControlEvent {
    /// A client has subscribed.
    Notify,
    /// A client has written; these attributes cannot be written.
    Write,
    /// The stream has ended.
    Ended,
}

/// The input device.
#[derive(Clone, Copy, Debug, PartialEq, Eq, Structural)]
pub struct HidPeripheral {
    /// Whether a client listens to the keyboard.
    pub keyboard_writer: bool,
    /// Whether a client listens to the touch pad.
    pub touchpad_writer: bool,
    pub width: u16,
    pub height: u16,
}

/// A coordinate, moved onto an axis of that length.
pub open spec fn on_axis(v: u16, length: u16) -> u16 {
    if v <= axis_max(length) {
        v
    } else {
        axis_max(length)
    }
}

/// The report of a touch: number of contacts, contact, flags, X, Y.
pub open spec fn touch_report(width: u16, height: u16, down: bool, x: u16, y: u16) -> Seq<u8> {
    seq![
        TOUCHPAD_ID,
        if down {
            1u8
        } else {
            0
        },
        0u8,
        if down {
            3u8
        } else {
            0
        },
    ] + wire::le16(on_axis(x, width)) + wire::le16(on_axis(y, height))
}

/// The report of the pressed keys: the modifiers, a reserved byte, six keys.
pub open spec fn key_report(modifier: u8, keys: Seq<u8>) -> Seq<u8> {
    seq![KEYBOARD_ID, modifier, 0u8] + keys
}

fn clamp_to_axis(v: u16, length: u16) -> (r: u16)
    ensures
        r == on_axis(v, length),
{
    let max: u16 = last_coordinate(length);
    if v <= max {
        v
    } else {
        max
    }
}

/// A reported coordinate never exceeds the largest one that the descriptor announces.
pub proof fn law_touches_stay_on_screen(
    width: u16,
    height: u16,
    down: bool,
    x: u16,
    y: u16,
)
    ensures
        touch_report(width, height, down, x, y).len() == 8,
        ({
            let r = touch_report(width, height, down, x, y);
            &&& r[4] + 256 * r[5] <= axis_max(width)
            &&& r[6] + 256 * r[7] <= axis_max(height)
            &&& x <= axis_max(width) ==> r[4] + 256 * r[5] == x
            &&& y <= axis_max(height) ==> r[6] + 256 * r[7] == y
        }),
        ({
            let d = report_descriptor(width, height);
            let at = touch_head().len() as int;
            let at_y = at + 2 + touch_middle().len();
            &&& d[at] + 256 * d[at + 1] == axis_max(width)
            &&& d[at_y] + 256 * d[at_y + 1] == axis_max(height)
        }),
{
    let d = report_descriptor(width, height);
    let at = touch_head().len() as int;
    let at_y = at + 2 + touch_middle().len();
    assert(d[at] == wire::le16(axis_max(width))[0]);
    assert(d[at + 1] == wire::le16(axis_max(width))[1]);
    assert(d[at_y] == wire::le16(axis_max(height))[0]);
    assert(d[at_y + 1] == wire::le16(axis_max(height))[1]);
    let r = touch_report(width, height, down, x, y);
    assert(r[4] == wire::le16(on_axis(x, width))[0]);
    assert(r[5] == wire::le16(on_axis(x, width))[1]);
    assert(r[6] == wire::le16(on_axis(y, height))[0]);
    assert(r[7] == wire::le16(on_axis(y, height))[1]);
}

impl HidPeripheral {
    /// A device that nobody listens to yet.
    pub fn new(width: u16, height: u16) -> (r: Self)
        ensures
            r == (HidPeripheral { keyboard_writer: false, touchpad_writer: false, width, height }),
    {
        HidPeripheral { keyboard_writer: false, touchpad_writer: false, width, height }
    }

    pub fn width(&self) -> (r: u16)
        ensures
            r == self.width,
    {
        self.width
    }

    pub fn height(&self) -> (r: u16)
        ensures
            r == self.height,
    {
        self.height
    }

    /// Whether a client listens to touches.
    pub open spec fn touch_goes_out(self) -> bool {
        self.touchpad_writer
    }

    /// Whether a client listens to keys.
    pub open spec fn key_goes_out(self) -> bool {
        self.keyboard_writer
    }

    /// The report of a touch, where a client listens. Bit 0 of the flags tells that the
    /// finger touches, bit 1 that it is in range.
    pub fn send_touch(&self, down: bool, x: u16, y: u16) -> (r: Result<Vec<u8>, HidError>)
        ensures
            r is Ok <==> self.touch_goes_out(),
            r matches Ok(report) ==> report@ == touch_report(self.width, self.height, down, x, y),
            r matches Err(e) ==> e == HidError::NotConnected,
    {
        if !self.touchpad_writer {
            return Err(HidError::NotConnected);
        }
        let mut report: Vec<u8> = Vec::new();
        report.push(TOUCHPAD_ID);
        report.push(
            if down {
                1
            } else {
                0
            },
        );
        report.push(0);
        report.push(
            if down {
                3
            } else {
                0
            },
        );
        wire::push_le16(&mut report, clamp_to_axis(x, self.width));
        wire::push_le16(&mut report, clamp_to_axis(y, self.height));
        assert(report@ =~= touch_report(self.width, self.height, down, x, y));
        Ok(report)
    }

    /// The report of the pressed keys, where a client listens. Zeros release all keys.
    pub fn send_key(&self, modifier: u8, keys: [u8; 6]) -> (r: Result<Vec<u8>, HidError>)
        ensures
            r is Ok <==> self.key_goes_out(),
            r matches Ok(report) ==> report@ == key_report(modifier, keys@),
            r matches Err(e) ==> e == HidError::NotConnected,
    {
        if !self.keyboard_writer {
            return Err(HidError::NotConnected);
        }
        let mut report: Vec<u8> = Vec::new();
        report.push(KEYBOARD_ID);
        report.push(modifier);
        report.push(0);
        let mut i: usize = 0;
        while i < 6
            invariant
                i <= 6,
                keys@.len() == 6,
                report@ == seq![KEYBOARD_ID, modifier, 0u8] + keys@.take(i as int),
            decreases 6 - i,
        {
            report.push(keys[i]);
            assert(report@ =~= seq![KEYBOARD_ID, modifier, 0u8] + keys@.take(i + 1));
            i = i + 1;
        }
        assert(keys@.take(6) =~= keys@);
        Ok(report)
    }

    /// The device after the attempt to hand a report to its client.
    pub open spec fn after_write(self, report: HidReport, sent: bool) -> HidPeripheral {
        if sent {
            self
        } else {
            match report {
                HidReport::Keyboard => HidPeripheral { keyboard_writer: false, ..self },
                HidReport::Touchpad => HidPeripheral { touchpad_writer: false, ..self },
            }
        }
    }

    /// Notes whether a report reached its client. A client that cannot be reached is
    /// forgotten.
    pub fn report_written(&mut self, report: HidReport, sent: bool) -> (r: Result<(), HidError>)
        ensures
            *final(self) == old(self).after_write(report, sent),
            r == delivery(sent),
    {
        if sent {
            return Ok(());
        }
        match report {
            HidReport::Keyboard => {
                self.keyboard_writer = false;
            },
            HidReport::Touchpad => {
                self.touchpad_writer = false;
            },
        }
        Err(HidError::NotificationFailed)
    }

    /// The device after an event of a report's control stream.
    pub open spec fn after_control(self, report: HidReport, event: HidControlEvent)
        -> HidPeripheral {
        let listens = match event {
            HidControlEvent::Notify => true,
            HidControlEvent::Write => match report {
                HidReport::Keyboard => self.keyboard_writer,
                HidReport::Touchpad => self.touchpad_writer,
            },
            HidControlEvent::Ended => false,
        };
        match report {
            HidReport::Keyboard => HidPeripheral { keyboard_writer: listens, ..self },
            HidReport::Touchpad => HidPeripheral { touchpad_writer: listens, ..self },
        }
    }

    /// Follows the control stream of a report's attribute; tells whether it goes on.
    pub fn on_control(&mut self, report: HidReport, event: HidControlEvent) -> (goes_on: bool)
        ensures
            *final(self) == old(self).after_control(report, event),
            goes_on == stream_goes_on(event),
    {
        let listens: bool = match event {
            HidControlEvent::Notify => true,
            HidControlEvent::Write => {
                return true;
            },
            HidControlEvent::Ended => false,
        };
        match report {
            HidReport::Keyboard => {
                self.keyboard_writer = listens;
            },
            HidReport::Touchpad => {
                self.touchpad_writer = listens;
            },
        }
        listens
    }
}

/// What comes of handing a report over.
pub open spec fn delivery(sent: bool) -> Result<(), HidError> {
    if sent {
        Ok(())
    } else {
        Err(HidError::NotificationFailed)
    }
}

/// Whether a control stream goes on after an event.
pub open spec fn stream_goes_on(event: HidControlEvent) -> bool {
    event != HidControlEvent::Ended
}

// ---------------------------------------------------------------------------
// Attributes.

/// An attribute of the input device.
#[derive(Debug)]
pub struct HidCharacteristic {
    pub uuid: u128,
    /// What a read gives, where it can be read.
    pub read: Option<Vec<u8>>,
    /// Whether clients can subscribe to it.
    pub notify: bool,
    pub write: bool,
    pub write_without_response: bool,
    /// Which report it stands for: its number and whether it is input (1) or output (2).
    pub report_reference: Option<(u8, u8)>,
}

/// An attribute with its value as a sequence.
#[verifier::ext_equal]
pub struct HidCharacteristicView {
    pub uuid: u128,
    pub read: Option<Seq<u8>>,
    pub notify: bool,
    pub write: bool,
    pub write_without_response: bool,
    pub report_reference: Option<(u8, u8)>,
}

impl View for HidCharacteristic {
    type V = HidCharacteristicView;

    open spec fn view(&self) -> HidCharacteristicView {
        HidCharacteristicView {
            uuid: self.uuid,
            read: match self.read {
                Some(v) => Some(v@),
                None => None,
            },
            notify: self.notify,
            write: self.write,
            write_without_response: self.write_without_response,
            report_reference: self.report_reference,
        }
    }
}

/// The attributes of a sequence, by their views.
pub open spec fn characteristic_views(v: Seq<HidCharacteristic>) -> Seq<HidCharacteristicView> {
    v.map_values(|c: HidCharacteristic| c@)
}

/// An attribute that can only be read.
pub open spec fn readable_attribute(uuid: u128, value: Seq<u8>) -> HidCharacteristicView {
    HidCharacteristicView {
        uuid,
        read: Some(value),
        notify: false,
        write: false,
        write_without_response: false,
        report_reference: None,
    }
}

/// An attribute for an input report.
pub open spec fn input_attribute(report_id: u8) -> HidCharacteristicView {
    HidCharacteristicView {
        uuid: REPORT_CHAR,
        read: None,
        notify: true,
        write: false,
        write_without_response: false,
        report_reference: Some((report_id, 1u8)),
    }
}

/// The attributes of the input device: HID 1.11 that can be connected to, the map of the
/// reports, keyboard input and output, touch pad input, the control point, and the
/// report protocol.
pub open spec fn hid_attributes(width: u16, height: u16) -> Seq<HidCharacteristicView> {
    seq![
        readable_attribute(HID_INFO_CHAR, seq![0x11u8, 0x01, 0x00, 0x01]),
        readable_attribute(REPORT_MAP_CHAR, report_descriptor(width, height)),
        input_attribute(KEYBOARD_ID),
        HidCharacteristicView {
            uuid: REPORT_CHAR,
            read: None,
            notify: false,
            write: true,
            write_without_response: true,
            report_reference: Some((KEYBOARD_ID, 2u8)),
        },
        input_attribute(TOUCHPAD_ID),
        HidCharacteristicView {
            uuid: HID_CONTROL_POINT_CHAR,
            read: None,
            notify: false,
            write: false,
            write_without_response: true,
            report_reference: None,
        },
        HidCharacteristicView {
            uuid: PROTOCOL_MODE_CHAR,
            read: Some(seq![0x01u8]),
            notify: false,
            write: true,
            write_without_response: true,
            report_reference: None,
        },
    ]
}

fn read_only(uuid: u128, value: Vec<u8>) -> (r: HidCharacteristic)
    ensures
        r@ == readable_attribute(uuid, value@),
{
    HidCharacteristic {
        uuid,
        read: Some(value),
        notify: false,
        write: false,
        write_without_response: false,
        report_reference: None,
    }
}

fn input_report(report_id: u8) -> (r: HidCharacteristic)
    ensures
        r@ == input_attribute(report_id),
{
    HidCharacteristic {
        uuid: REPORT_CHAR,
        read: None,
        notify: true,
        write: false,
        write_without_response: false,
        report_reference: Some((report_id, 1)),
    }
}

/// The value of the descriptor that ties an attribute to its report.
pub fn report_reference_descriptor(report_id: u8, report_type: u8) -> (r: Vec<u8>)
    ensures
        r@ == seq![report_id, report_type],
{
    let r: Vec<u8> = vec![report_id, report_type];
    assert(r@ =~= seq![report_id, report_type]);
    r
}

/// The attributes that the input device is started with.
pub fn start_hid_peripheral(width: u16, height: u16) -> (r: (
    HidPeripheral,
    Vec<HidCharacteristic>,
))
    ensures
        r.0 == (HidPeripheral { keyboard_writer: false, touchpad_writer: false, width, height }),
        characteristic_views(r.1@) == hid_attributes(width, height),
{
    let mut list: Vec<HidCharacteristic> = Vec::new();
    let info: Vec<u8> = vec![0x11, 0x01, 0x00, 0x01];
    assert(info@ =~= seq![0x11u8, 0x01, 0x00, 0x01]);
    list.push(read_only(HID_INFO_CHAR, info));
    list.push(read_only(REPORT_MAP_CHAR, build_report_descriptor(width, height)));
    list.push(input_report(KEYBOARD_ID));
    list.push(
        HidCharacteristic {
            uuid: REPORT_CHAR,
            read: None,
            notify: false,
            write: true,
            write_without_response: true,
            report_reference: Some((KEYBOARD_ID, 2)),
        },
    );
    list.push(input_report(TOUCHPAD_ID));
    list.push(
        HidCharacteristic {
            uuid: HID_CONTROL_POINT_CHAR,
            read: None,
            notify: false,
            write: false,
            write_without_response: true,
            report_reference: None,
        },
    );
    let mode: Vec<u8> = vec![0x01];
    assert(mode@ =~= seq![0x01u8]);
    list.push(
        HidCharacteristic {
            uuid: PROTOCOL_MODE_CHAR,
            read: Some(mode),
            notify: false,
            write: true,
            write_without_response: true,
            report_reference: None,
        },
    );
    assert(characteristic_views(list@) =~= hid_attributes(width, height));
    (HidPeripheral::new(width, height), list)
}

} // verus!
