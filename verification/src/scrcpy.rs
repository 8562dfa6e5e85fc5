//! The control channel of the screen copy server: its events, and how the head
//! unit's input becomes such events.
use vstd::prelude::*;

use crate::buffers;
use crate::buffers::{buffer_to_vec, extend_buffer, new_buffer};
use crate::channel_manager::{Packet, PacketView};
use crate::messages;
use crate::protos;
use crate::wire;

verus! {

#[derive(Clone, Copy, Debug, PartialEq, Eq, Structural)]
pub enum AndroidTouchEvent {
    Down,
    Up,
    Move,
    Scroll,
    BackOrScreenOn,
}

/// Android's number of a touch event.
pub open spec fn touch_code(e: AndroidTouchEvent) -> u8 {
    match e {
        AndroidTouchEvent::Down => 0,
        AndroidTouchEvent::Up => 1,
        AndroidTouchEvent::Move => 2,
        AndroidTouchEvent::Scroll => 8,
        AndroidTouchEvent::BackOrScreenOn => 9,
    }
}

impl AndroidTouchEvent {
    pub fn code(&self) -> (r: u8)
        ensures
            r == touch_code(*self),
    {
        match self {
            AndroidTouchEvent::Down => 0,
            AndroidTouchEvent::Up => 1,
            AndroidTouchEvent::Move => 2,
            AndroidTouchEvent::Scroll => 8,
            AndroidTouchEvent::BackOrScreenOn => 9,
        }
    }
}

#[derive(Clone, Copy, Debug, PartialEq, Eq, Structural)]
pub enum AndroidKeyEvent {
    Down,
    Up,
}

/// Android's number of a key event.
pub open spec fn key_code_of(e: AndroidKeyEvent) -> u8 {
    match e {
        AndroidKeyEvent::Down => 0,
        AndroidKeyEvent::Up => 1,
    }
}

impl AndroidKeyEvent {
    pub fn code(&self) -> (r: u8)
        ensures
            r == key_code_of(*self),
    {
        match self {
            AndroidKeyEvent::Down => 0,
            AndroidKeyEvent::Up => 1,
        }
    }
}

#[derive(Clone, Copy, Debug, PartialEq, Eq, Structural)]
pub enum ScrcpyControlMessageType {
    InjectKeycode,
    InjectTouchEvent,
    InjectScrollEvent,
    BackOrScreenOn,
    SetDisplayPower,
    RotateDevice,
}

/// The first byte of a control message.
pub open spec fn control_code(t: ScrcpyControlMessageType) -> u8 {
    match t {
        ScrcpyControlMessageType::InjectKeycode => 0,
        ScrcpyControlMessageType::InjectTouchEvent => 2,
        ScrcpyControlMessageType::InjectScrollEvent => 3,
        ScrcpyControlMessageType::BackOrScreenOn => 4,
        ScrcpyControlMessageType::SetDisplayPower => 10,
        ScrcpyControlMessageType::RotateDevice => 11,
    }
}

impl ScrcpyControlMessageType {
    pub fn code(&self) -> (r: u8)
        ensures
            r == control_code(*self),
    {
        match self {
            ScrcpyControlMessageType::InjectKeycode => 0,
            ScrcpyControlMessageType::InjectTouchEvent => 2,
            ScrcpyControlMessageType::InjectScrollEvent => 3,
            ScrcpyControlMessageType::BackOrScreenOn => 4,
            ScrcpyControlMessageType::SetDisplayPower => 10,
            ScrcpyControlMessageType::RotateDevice => 11,
        }
    }
}

#[derive(Clone, Copy, Debug, Default, PartialEq, Eq, Structural)]
pub struct ScrcpySetDisplayPowerEvent {
    pub on: bool,
}

#[derive(Clone, Copy, Debug, Default, PartialEq, Eq, Structural)]
pub struct ScrcpyPoint {
    pub x: i32,
    pub y: i32,
}

#[derive(Clone, Copy, Debug, Default, PartialEq, Eq, Structural)]
pub struct ScrcpySize {
    pub width: u16,
    pub height: u16,
}

#[derive(Clone, Copy, Debug, Default, PartialEq, Eq, Structural)]
pub struct ScrcpyPosition {
    pub point: ScrcpyPoint,
    pub screen_size: ScrcpySize,
}

#[derive(Clone, Copy, Debug, Default, PartialEq, Eq, Structural)]
pub struct ScrcpyTouchEvent {
    pub action: u8,
    pub pointer_id: u64,
    pub position: ScrcpyPosition,
    pub pressure: u16,
    pub action_button: i32,
    pub buttons: i32,
}

#[derive(Clone, Copy, Debug, Default, PartialEq, Eq, Structural)]
pub struct ScrcpyKeyEvent {
    pub action: u8,
    pub key_code: i32,
    pub repeat: i32,
    pub metastate: i32,
}

#[derive(Clone, Copy, Debug, Default, PartialEq, Eq, Structural)]
pub struct ScrcpyScrollEvent {
    pub position: ScrcpyPoint,
    pub screen_size: ScrcpySize,
    pub hscroll: i16,
    pub vscroll: i16,
    pub buttons: i32,
}

/// The bytes of a point.
pub open spec fn point_bytes(p: ScrcpyPoint) -> Seq<u8> {
    wire::be32(p.x as u32) + wire::be32(p.y as u32)
}

/// The bytes of a size.
pub open spec fn size_bytes(s: ScrcpySize) -> Seq<u8> {
    wire::be16(s.width) + wire::be16(s.height)
}

/// The bytes of a position.
pub open spec fn position_bytes(p: ScrcpyPosition) -> Seq<u8> {
    point_bytes(p.point) + size_bytes(p.screen_size)
}

/// The bytes of a touch event.
pub open spec fn touch_bytes(e: ScrcpyTouchEvent) -> Seq<u8> {
    seq![e.action] + wire::be64(e.pointer_id) + position_bytes(e.position) + wire::be16(e.pressure)
        + wire::be32(e.action_button as u32) + wire::be32(e.buttons as u32)
}

/// The bytes of a key event.
pub open spec fn key_bytes(e: ScrcpyKeyEvent) -> Seq<u8> {
    seq![e.action] + wire::be32(e.key_code as u32) + wire::be32(e.repeat as u32) + wire::be32(
        e.metastate as u32,
    )
}

/// The bytes of a scroll event.
pub open spec fn scroll_bytes(e: ScrcpyScrollEvent) -> Seq<u8> {
    point_bytes(e.position) + size_bytes(e.screen_size) + wire::be16(e.hscroll as u16) + wire::be16(
        e.vscroll as u16,
    ) + wire::be32(e.buttons as u32)
}

/// The lengths that the server expects of the events.
pub proof fn law_event_lengths(t: ScrcpyTouchEvent, k: ScrcpyKeyEvent, s: ScrcpyScrollEvent)
    ensures
        touch_bytes(t).len() == 31,
        key_bytes(k).len() == 13,
        scroll_bytes(s).len() == 20,
{
}

/// A signed field survives the way through its unsigned form.
proof fn lemma_signed(v: i32)
    ensures
        (v as u32) as i32 == v,
{
    assert((v as u32) as i32 == v) by (bit_vector);
}

/// All fields of a touch event can be read back from its bytes.
pub proof fn law_touch_event_round_trip(e: ScrcpyTouchEvent)
    ensures
        touch_bytes(e)[0] == e.action,
        wire::be64_at(touch_bytes(e), 1) == e.pointer_id,
        wire::be32_at(touch_bytes(e), 9) as i32 == e.position.point.x,
        wire::be32_at(touch_bytes(e), 13) as i32 == e.position.point.y,
        wire::be16_at(touch_bytes(e), 17) == e.position.screen_size.width,
        wire::be16_at(touch_bytes(e), 19) == e.position.screen_size.height,
        wire::be16_at(touch_bytes(e), 21) == e.pressure,
        wire::be32_at(touch_bytes(e), 23) as i32 == e.action_button,
        wire::be32_at(touch_bytes(e), 27) as i32 == e.buttons,
{
    let b = touch_bytes(e);
    let x = e.position.point.x;
    let y = e.position.point.y;
    let s = e.position.screen_size;
    lemma_signed(x);
    lemma_signed(y);
    lemma_signed(e.action_button);
    lemma_signed(e.buttons);
    assert(wire::be64_at(b, 1) == e.pointer_id) by {
        wire::law_be64_round_trip(b.take(1), e.pointer_id, b.skip(9));
        assert(b =~= b.take(1) + wire::be64(e.pointer_id) + b.skip(9));
    }
    assert(wire::be32_at(b, 9) == x as u32) by {
        wire::law_be32_round_trip(b.take(9), x as u32, b.skip(13));
        assert(b =~= b.take(9) + wire::be32(x as u32) + b.skip(13));
    }
    assert(wire::be32_at(b, 13) == y as u32) by {
        wire::law_be32_round_trip(b.take(13), y as u32, b.skip(17));
        assert(b =~= b.take(13) + wire::be32(y as u32) + b.skip(17));
    }
    assert(wire::be16_at(b, 17) == s.width) by {
        wire::law_be16_round_trip(b.take(17), s.width, b.skip(19));
        assert(b =~= b.take(17) + wire::be16(s.width) + b.skip(19));
    }
    assert(wire::be16_at(b, 19) == s.height) by {
        wire::law_be16_round_trip(b.take(19), s.height, b.skip(21));
        assert(b =~= b.take(19) + wire::be16(s.height) + b.skip(21));
    }
    assert(wire::be16_at(b, 21) == e.pressure) by {
        wire::law_be16_round_trip(b.take(21), e.pressure, b.skip(23));
        assert(b =~= b.take(21) + wire::be16(e.pressure) + b.skip(23));
    }
    assert(wire::be32_at(b, 23) == e.action_button as u32) by {
        wire::law_be32_round_trip(b.take(23), e.action_button as u32, b.skip(27));
        assert(b =~= b.take(23) + wire::be32(e.action_button as u32) + b.skip(27));
    }
    assert(wire::be32_at(b, 27) == e.buttons as u32) by {
        wire::law_be32_round_trip(b.take(27), e.buttons as u32, b.skip(31));
        assert(b =~= b.take(27) + wire::be32(e.buttons as u32) + b.skip(31));
    }
}

/// All fields of a key event can be read back from its bytes.
pub proof fn law_key_event_round_trip(e: ScrcpyKeyEvent)
    ensures
        key_bytes(e)[0] == e.action,
        wire::be32_at(key_bytes(e), 1) as i32 == e.key_code,
        wire::be32_at(key_bytes(e), 5) as i32 == e.repeat,
        wire::be32_at(key_bytes(e), 9) as i32 == e.metastate,
{
    let b = key_bytes(e);
    lemma_signed(e.key_code);
    lemma_signed(e.repeat);
    lemma_signed(e.metastate);
    assert(wire::be32_at(b, 1) == e.key_code as u32) by {
        wire::law_be32_round_trip(b.take(1), e.key_code as u32, b.skip(5));
        assert(b =~= b.take(1) + wire::be32(e.key_code as u32) + b.skip(5));
    }
    assert(wire::be32_at(b, 5) == e.repeat as u32) by {
        wire::law_be32_round_trip(b.take(5), e.repeat as u32, b.skip(9));
        assert(b =~= b.take(5) + wire::be32(e.repeat as u32) + b.skip(9));
    }
    assert(wire::be32_at(b, 9) == e.metastate as u32) by {
        wire::law_be32_round_trip(b.take(9), e.metastate as u32, b.skip(13));
        assert(b =~= b.take(9) + wire::be32(e.metastate as u32) + b.skip(13));
    }
}

/// All fields of a scroll event can be read back from its bytes.
pub proof fn law_scroll_event_round_trip(e: ScrcpyScrollEvent)
    ensures
        wire::be32_at(scroll_bytes(e), 0) as i32 == e.position.x,
        wire::be32_at(scroll_bytes(e), 4) as i32 == e.position.y,
        wire::be16_at(scroll_bytes(e), 8) == e.screen_size.width,
        wire::be16_at(scroll_bytes(e), 10) == e.screen_size.height,
        wire::be16_at(scroll_bytes(e), 12) as i16 == e.hscroll,
        wire::be16_at(scroll_bytes(e), 14) as i16 == e.vscroll,
        wire::be32_at(scroll_bytes(e), 16) as i32 == e.buttons,
{
    let b = scroll_bytes(e);
    let x = e.position.x;
    let y = e.position.y;
    let h = e.hscroll;
    let v = e.vscroll;
    lemma_signed(x);
    lemma_signed(y);
    lemma_signed(e.buttons);
    assert((h as u16) as i16 == h && (v as u16) as i16 == v) by (bit_vector);
    assert(wire::be32_at(b, 0) == x as u32) by {
        wire::law_be32_round_trip(b.take(0), x as u32, b.skip(4));
        assert(b =~= b.take(0) + wire::be32(x as u32) + b.skip(4));
    }
    assert(wire::be32_at(b, 4) == y as u32) by {
        wire::law_be32_round_trip(b.take(4), y as u32, b.skip(8));
        assert(b =~= b.take(4) + wire::be32(y as u32) + b.skip(8));
    }
    assert(wire::be16_at(b, 8) == e.screen_size.width) by {
        wire::law_be16_round_trip(b.take(8), e.screen_size.width, b.skip(10));
        assert(b =~= b.take(8) + wire::be16(e.screen_size.width) + b.skip(10));
    }
    assert(wire::be16_at(b, 10) == e.screen_size.height) by {
        wire::law_be16_round_trip(b.take(10), e.screen_size.height, b.skip(12));
        assert(b =~= b.take(10) + wire::be16(e.screen_size.height) + b.skip(12));
    }
    assert(wire::be16_at(b, 12) == h as u16) by {
        wire::law_be16_round_trip(b.take(12), h as u16, b.skip(14));
        assert(b =~= b.take(12) + wire::be16(h as u16) + b.skip(14));
    }
    assert(wire::be16_at(b, 14) == v as u16) by {
        wire::law_be16_round_trip(b.take(14), v as u16, b.skip(16));
        assert(b =~= b.take(14) + wire::be16(v as u16) + b.skip(16));
    }
    assert(wire::be32_at(b, 16) == e.buttons as u32) by {
        wire::law_be32_round_trip(b.take(16), e.buttons as u32, b.skip(20));
        assert(b =~= b.take(16) + wire::be32(e.buttons as u32) + b.skip(20));
    }
}

fn put_be16(buf: &mut bytes::BytesMut, v: u16)
    requires
        buffers::buffered(*old(buf)).len() <= 64,
    ensures
        buffers::buffered(*final(buf)) == buffers::buffered(*old(buf)) + wire::be16(v),
{
    let mut field: Vec<u8> = Vec::new();
    wire::push_be16(&mut field, v);
    assert(field@ =~= wire::be16(v));
    extend_buffer(buf, field.as_slice());
}

fn put_be32(buf: &mut bytes::BytesMut, v: u32)
    requires
        buffers::buffered(*old(buf)).len() <= 64,
    ensures
        buffers::buffered(*final(buf)) == buffers::buffered(*old(buf)) + wire::be32(v),
{
    let mut field: Vec<u8> = Vec::new();
    wire::push_be32(&mut field, v);
    assert(field@ =~= wire::be32(v));
    extend_buffer(buf, field.as_slice());
}

fn put_be64(buf: &mut bytes::BytesMut, v: u64)
    requires
        buffers::buffered(*old(buf)).len() <= 64,
    ensures
        buffers::buffered(*final(buf)) == buffers::buffered(*old(buf)) + wire::be64(v),
{
    let mut field: Vec<u8> = Vec::new();
    wire::push_be64(&mut field, v);
    assert(field@ =~= wire::be64(v));
    extend_buffer(buf, field.as_slice());
}

fn put_u8(buf: &mut bytes::BytesMut, v: u8)
    requires
        buffers::buffered(*old(buf)).len() <= 64,
    ensures
        buffers::buffered(*final(buf)) == buffers::buffered(*old(buf)) + seq![v],
{
    let mut field: Vec<u8> = Vec::new();
    field.push(v);
    assert(field@ =~= seq![v]);
    extend_buffer(buf, field.as_slice());
}

impl ScrcpyPoint {
    /// The point in big-endian bytes.
    pub fn to_be_bytes(&self) -> (r: Vec<u8>)
        ensures
            r@ == point_bytes(*self),
    {
        let mut buf = new_buffer();
        put_be32(&mut buf, self.x as u32);
        put_be32(&mut buf, self.y as u32);
        let r = buffer_to_vec(&buf);
        assert(r@ =~= point_bytes(*self));
        r
    }
}

impl ScrcpySize {
    /// The size in big-endian bytes.
    pub fn to_be_bytes(&self) -> (r: Vec<u8>)
        ensures
            r@ == size_bytes(*self),
    {
        let mut buf = new_buffer();
        put_be16(&mut buf, self.width);
        put_be16(&mut buf, self.height);
        let r = buffer_to_vec(&buf);
        assert(r@ =~= size_bytes(*self));
        r
    }
}

impl ScrcpyPosition {
    /// The position in big-endian bytes.
    pub fn to_be_bytes(&self) -> (r: Vec<u8>)
        ensures
            r@ == position_bytes(*self),
    {
        let mut buf = new_buffer();
        extend_buffer(&mut buf, self.point.to_be_bytes().as_slice());
        extend_buffer(&mut buf, self.screen_size.to_be_bytes().as_slice());
        let r = buffer_to_vec(&buf);
        assert(r@ =~= position_bytes(*self));
        r
    }
}

impl ScrcpyTouchEvent {
    /// The event in big-endian bytes.
    pub fn to_be_bytes(&self) -> (r: Vec<u8>)
        ensures
            r@ == touch_bytes(*self),
    {
        let mut buf = new_buffer();
        put_u8(&mut buf, self.action);
        put_be64(&mut buf, self.pointer_id);
        extend_buffer(&mut buf, self.position.to_be_bytes().as_slice());
        put_be16(&mut buf, self.pressure);
        put_be32(&mut buf, self.action_button as u32);
        put_be32(&mut buf, self.buttons as u32);
        let r = buffer_to_vec(&buf);
        assert(r@ =~= touch_bytes(*self));
        r
    }
}

impl ScrcpyKeyEvent {
    /// The event in big-endian bytes.
    pub fn to_be_bytes(&self) -> (r: Vec<u8>)
        ensures
            r@ == key_bytes(*self),
    {
        let mut buf = new_buffer();
        put_u8(&mut buf, self.action);
        put_be32(&mut buf, self.key_code as u32);
        put_be32(&mut buf, self.repeat as u32);
        put_be32(&mut buf, self.metastate as u32);
        let r = buffer_to_vec(&buf);
        assert(r@ =~= key_bytes(*self));
        r
    }
}

impl ScrcpyScrollEvent {
    /// The event in big-endian bytes.
    pub fn to_be_bytes(&self) -> (r: Vec<u8>)
        ensures
            r@ == scroll_bytes(*self),
    {
        let mut buf = new_buffer();
        extend_buffer(&mut buf, self.position.to_be_bytes().as_slice());
        extend_buffer(&mut buf, self.screen_size.to_be_bytes().as_slice());
        put_be16(&mut buf, self.hscroll as u16);
        put_be16(&mut buf, self.vscroll as u16);
        put_be32(&mut buf, self.buttons as u32);
        let r = buffer_to_vec(&buf);
        assert(r@ =~= scroll_bytes(*self));
        r
    }
}

// ---------------------------------------------------------------------------
// Input reports.

/// What a finger does.
#[derive(Clone, Copy, Debug, PartialEq, Eq, Structural)]
pub enum PointerAction {
    Down,
    Up,
    Moved,
    /// An action that is not passed on.
    Other,
}

/// One finger of a touch event.
#[derive(Clone, Copy, Debug, PartialEq, Eq, Structural)]
pub struct Pointer {
    pub x: u32,
    pub y: u32,
    pub pointer_id: u32,
}

/// A touch of the screen or of a pad.
#[derive(Debug)]
pub struct TouchReport {
    pub action: PointerAction,
    pub pointer_data: Vec<Pointer>,
}

/// A key that went down or up.
#[derive(Clone, Copy, Debug, PartialEq, Eq, Structural)]
pub struct KeyReport {
    pub keycode: u32,
    pub down: bool,
}

/// A control that turned.
#[derive(Clone, Copy, Debug, PartialEq, Eq, Structural)]
pub struct RelativeReport {
    pub keycode: u32,
    pub delta: i32,
}

/// The head unit's input.
#[derive(Debug)]
pub struct InputReport {
    pub touch_event: Option<TouchReport>,
    pub touchpad_event: Option<TouchReport>,
    pub key_event: Option<Vec<KeyReport>>,
    /// Whether there is an event with absolute values; they are not passed on.
    pub absolute_event: bool,
    pub relative_event: Option<Vec<RelativeReport>>,
}

/// Android's event for what a finger does.
pub open spec fn touch_event_of(action: PointerAction) -> Option<AndroidTouchEvent> {
    match action {
        PointerAction::Down => Some(AndroidTouchEvent::Down),
        PointerAction::Up => Some(AndroidTouchEvent::Up),
        PointerAction::Moved => Some(AndroidTouchEvent::Move),
        PointerAction::Other => None,
    }
}

/// Where a finger is.
pub open spec fn pointer_point(p: Pointer) -> ScrcpyPoint {
    ScrcpyPoint { x: p.x as i32, y: p.y as i32 }
}

/// The control message for one finger: full pressure, the primary button.
pub open spec fn touch_message(size: ScrcpySize, event: AndroidTouchEvent, p: Pointer) -> Seq<u8> {
    seq![control_code(ScrcpyControlMessageType::InjectTouchEvent)] + touch_bytes(
        ScrcpyTouchEvent {
            action: touch_code(event),
            pointer_id: p.pointer_id as u64,
            position: ScrcpyPosition { point: pointer_point(p), screen_size: size },
            pressure: 0xffff,
            action_button: 1,
            buttons: 1,
        },
    )
}

/// The control message for a key.
pub open spec fn key_message(k: KeyReport) -> Seq<u8> {
    seq![control_code(ScrcpyControlMessageType::InjectKeycode)] + key_bytes(
        ScrcpyKeyEvent {
            action: key_code_of(
                if k.down {
                    AndroidKeyEvent::Down
                } else {
                    AndroidKeyEvent::Up
                },
            ),
            key_code: k.keycode as i32,
            repeat: 0,
            metastate: 0,
        },
    )
}

/// The control message for a turn of the rotary controller: it scrolls where the
/// screen was touched last.
pub open spec fn scroll_message(size: ScrcpySize, at: ScrcpyPoint, delta: i32) -> Seq<u8> {
    seq![control_code(ScrcpyControlMessageType::InjectScrollEvent)] + scroll_bytes(
        ScrcpyScrollEvent {
            position: at,
            screen_size: size,
            hscroll: 0,
            vscroll: delta as i16,
            buttons: 1,
        },
    )
}

/// The control messages for a touch: one per finger, none where the action is not
/// passed on.
pub open spec fn touch_messages(size: ScrcpySize, t: TouchReport) -> Seq<Seq<u8>> {
    match touch_event_of(t.action) {
        Some(event) => t.pointer_data@.map_values(|p: Pointer| touch_message(size, event, p)),
        None => seq![],
    }
}

/// Where the screen was touched last, after a touch: where the last finger of the
/// report left it, where fingers left it.
pub open spec fn last_touch(point: ScrcpyPoint, t: TouchReport) -> ScrcpyPoint {
    if t.action == PointerAction::Up && t.pointer_data@.len() > 0 {
        pointer_point(t.pointer_data@.last())
    } else {
        point
    }
}

/// The control messages for the controls that turned: only the rotary controller counts.
pub open spec fn scroll_messages(
    size: ScrcpySize,
    at: ScrcpyPoint,
    events: Seq<RelativeReport>,
) -> Seq<Seq<u8>>
    decreases events.len(),
{
    if events.len() == 0 {
        seq![]
    } else {
        let before = scroll_messages(size, at, events.drop_last());
        if events.last().keycode == protos::KEYCODE_ROTARY_CONTROLLER {
            before.push(scroll_message(size, at, events.last().delta))
        } else {
            before
        }
    }
}

/// The contents of each message.
pub open spec fn byte_messages(v: Seq<Vec<u8>>) -> Seq<Seq<u8>> {
    v.map_values(|m: Vec<u8>| m@)
}

/// What the control server does at a packet.
#[derive(Debug)]
pub enum ControlStep {
    /// Write the messages to the screen copy server, in this order.
    Write { messages: Vec<Vec<u8>> },
    /// End the control server.
    Stop,
}

/// The control server.
#[derive(Clone, Copy, Debug, PartialEq, Eq, Structural)]
pub struct ControlServer {
    pub sid: u8,
    pub screen_size: ScrcpySize,
    pub cfg_screen_off: bool,
    pub last_touched_point: ScrcpyPoint,
}

impl ControlServer {
    /// The control messages for a report; a report of several kinds counts as the
    /// first of them.
    pub open spec fn report_messages(self, r: InputReport) -> Seq<Seq<u8>> {
        if r.touch_event is Some {
            touch_messages(self.screen_size, r.touch_event->0)
        } else if r.touchpad_event is Some {
            touch_messages(self.screen_size, r.touchpad_event->0)
        } else if r.key_event is Some {
            (r.key_event->0)@.map_values(|k: KeyReport| key_message(k))
        } else if r.absolute_event {
            seq![]
        } else if r.relative_event is Some {
            scroll_messages(self.screen_size, self.last_touched_point, (r.relative_event->0)@)
        } else {
            seq![]
        }
    }

    /// Where the screen was touched last, after a report.
    pub open spec fn report_touch(self, r: InputReport) -> ScrcpyPoint {
        if r.touch_event is Some {
            last_touch(self.last_touched_point, r.touch_event->0)
        } else if r.touchpad_event is Some {
            last_touch(self.last_touched_point, r.touchpad_event->0)
        } else {
            self.last_touched_point
        }
    }

    pub fn new(sid: u8, screen_size: ScrcpySize, cfg_screen_off: bool) -> (r: Self)
        ensures
            r == (ControlServer {
                sid,
                screen_size,
                cfg_screen_off,
                last_touched_point: ScrcpyPoint { x: 0, y: 0 },
            }),
    {
        ControlServer {
            sid,
            screen_size,
            cfg_screen_off,
            last_touched_point: ScrcpyPoint { x: 0, y: 0 },
        }
    }

    /// The message that begins the connection, where there is one.
    pub open spec fn first_message(self) -> Option<Seq<u8>> {
        if self.cfg_screen_off {
            Some(seq![control_code(ScrcpyControlMessageType::SetDisplayPower), 0u8])
        } else {
            None
        }
    }

    /// Whether a packet ends the server.
    pub open spec fn ends_server(p: PacketView) -> bool {
        p.message_id() == protos::MESSAGE_CUSTOM_CMD && messages::command_of(p) == protos::CANCEL
    }

    /// The messages that a packet leads to, where `report` is what could be read of it.
    pub open spec fn packet_messages(self, p: PacketView, report: Option<&InputReport>) -> Seq<
        Seq<u8>,
    > {
        if p.message_id() == protos::INPUT_MESSAGE_INPUT_REPORT && report is Some {
            self.report_messages(*report->0)
        } else {
            seq![]
        }
    }

    /// The server after a packet.
    pub open spec fn after_packet(self, p: PacketView, report: Option<&InputReport>) -> Self {
        ControlServer {
            last_touched_point: if p.message_id() == protos::INPUT_MESSAGE_INPUT_REPORT
                && report is Some {
                self.report_touch(*report->0)
            } else {
                self.last_touched_point
            },
            ..self
        }
    }

    /// What to write when the connection stands: the display is switched off where
    /// that is configured.
    pub fn start(&self) -> (r: Option<Vec<u8>>)
        ensures
            r is Some <==> self.first_message() is Some,
            r matches Some(m) ==> Some(m@) == self.first_message(),
    {
        if self.cfg_screen_off {
            let mut payload: Vec<u8> = Vec::new();
            payload.push(ScrcpyControlMessageType::SetDisplayPower.code());
            payload.push(0);
            assert(payload@ =~= seq![control_code(ScrcpyControlMessageType::SetDisplayPower), 0u8]);
            Some(payload)
        } else {
            None
        }
    }

    fn inject_touch(&mut self, t: &TouchReport) -> (r: Vec<Vec<u8>>)
        ensures
            byte_messages(r@) == touch_messages(old(self).screen_size, *t),
            *final(self) == (ControlServer {
                last_touched_point: last_touch(old(self).last_touched_point, *t),
                ..*old(self)
            }),
    {
        let mut r: Vec<Vec<u8>> = Vec::new();
        assert(byte_messages(r@) =~= Seq::<Seq<u8>>::empty());
        let event = match t.action {
            PointerAction::Down => AndroidTouchEvent::Down,
            PointerAction::Up => AndroidTouchEvent::Up,
            PointerAction::Moved => AndroidTouchEvent::Move,
            PointerAction::Other => {
                return r;
            },
        };
        let size = self.screen_size;
        let ghost before = *self;
        let mut i: usize = 0;
        while i < t.pointer_data.len()
            invariant
                i <= t.pointer_data@.len(),
                touch_event_of(t.action) == Some(event),
                size == before.screen_size,
                r@.len() == i,
                forall|k: int|
                    0 <= k < i ==> (#[trigger] r@[k])@ == touch_message(
                        size,
                        event,
                        t.pointer_data@[k],
                    ),
                *self == (ControlServer {
                    last_touched_point: if t.action == PointerAction::Up && i > 0 {
                        pointer_point(t.pointer_data@[i - 1])
                    } else {
                        before.last_touched_point
                    },
                    ..before
                }),
            decreases t.pointer_data@.len() - i,
        {
            let p: Pointer = t.pointer_data[i];
            let point = ScrcpyPoint { x: p.x as i32, y: p.y as i32 };
            if t.action == PointerAction::Up {
                self.last_touched_point = point;
            }
            let ev = ScrcpyTouchEvent {
                action: event.code(),
                pointer_id: p.pointer_id as u64,
                position: ScrcpyPosition { point, screen_size: size },
                pressure: 0xffff,
                action_button: 1,
                buttons: 1,
            };
            r.push(
                control_message(ScrcpyControlMessageType::InjectTouchEvent, &ev.to_be_bytes()),
            );
            i = i + 1;
        }
        assert(byte_messages(r@) =~= touch_messages(size, *t));
        r
    }

    /// The control messages for the head unit's input.
    pub fn inject(&mut self, report: &InputReport) -> (r: Vec<Vec<u8>>)
        ensures
            byte_messages(r@) == old(self).report_messages(*report),
            *final(self) == (ControlServer {
                last_touched_point: old(self).report_touch(*report),
                ..*old(self)
            }),
    {
        if let Some(t) = &report.touch_event {
            return self.inject_touch(t);
        }
        if let Some(t) = &report.touchpad_event {
            return self.inject_touch(t);
        }
        let mut r: Vec<Vec<u8>> = Vec::new();
        assert(byte_messages(r@) =~= Seq::<Seq<u8>>::empty());
        if let Some(keys) = &report.key_event {
            let mut i: usize = 0;
            while i < keys.len()
                invariant
                    i <= keys@.len(),
                    r@.len() == i,
                    forall|k: int| 0 <= k < i ==> (#[trigger] r@[k])@ == key_message(keys@[k]),
                decreases keys@.len() - i,
            {
                let key: KeyReport = keys[i];
                let action: u8 = if key.down {
                    AndroidKeyEvent::Down.code()
                } else {
                    AndroidKeyEvent::Up.code()
                };
                let ev = ScrcpyKeyEvent {
                    action,
                    key_code: key.keycode as i32,
                    repeat: 0,
                    metastate: 0,
                };
                r.push(
                    control_message(ScrcpyControlMessageType::InjectKeycode, &ev.to_be_bytes()),
                );
                i = i + 1;
            }
            assert(byte_messages(r@) =~= keys@.map_values(|k: KeyReport| key_message(k)));
            return r;
        }
        if !report.absolute_event {
            if let Some(events) = &report.relative_event {
                let mut i: usize = 0;
                while i < events.len()
                    invariant
                        i <= events@.len(),
                        byte_messages(r@) == scroll_messages(
                            self.screen_size,
                            self.last_touched_point,
                            events@.take(i as int),
                        ),
                    decreases events@.len() - i,
                {
                    let ghost before = byte_messages(r@);
                    assert(events@.take(i + 1).drop_last() =~= events@.take(i as int));
                    let event: RelativeReport = events[i];
                    if event.keycode == protos::KEYCODE_ROTARY_CONTROLLER {
                        let ev = ScrcpyScrollEvent {
                            position: self.last_touched_point,
                            screen_size: self.screen_size,
                            hscroll: 0,
                            vscroll: event.delta as i16,
                            buttons: 1,
                        };
                        let m = control_message(
                            ScrcpyControlMessageType::InjectScrollEvent,
                            &ev.to_be_bytes(),
                        );
                        r.push(m);
                        assert(byte_messages(r@) =~= before.push(m@));
                    }
                    i = i + 1;
                }
                assert(events@.take(i as int) =~= events@);
            }
        }
        r
    }

    /// Deals with a packet for the control server: input is passed on where it could be
    /// decoded, the cancel command ends the server, everything else is dropped.
    pub fn handle_packet(&mut self, pkt: &Packet, report: Option<&InputReport>) -> (step:
        ControlStep)
        requires
            messages::readable(pkt@),
        ensures
            step is Stop <==> Self::ends_server(pkt@),
            step matches ControlStep::Write { messages } ==> byte_messages(messages@) == old(
                self,
            ).packet_messages(pkt@, report),
            *final(self) == old(self).after_packet(pkt@, report),
    {
        let id: u16 = pkt.message_id();
        if id == protos::INPUT_MESSAGE_INPUT_REPORT {
            if let Some(report) = report {
                return ControlStep::Write { messages: self.inject(report) };
            }
        } else if id == protos::MESSAGE_CUSTOM_CMD {
            if messages::read_command(pkt) == protos::CANCEL {
                return ControlStep::Stop;
            }
        }
        let none: Vec<Vec<u8>> = Vec::new();
        assert(byte_messages(none@) =~= Seq::<Seq<u8>>::empty());
        ControlStep::Write { messages: none }
    }
}

fn control_message(t: ScrcpyControlMessageType, event: &Vec<u8>) -> (r: Vec<u8>)
    ensures
        r@ == seq![control_code(t)] + event@,
{
    let mut r: Vec<u8> = Vec::new();
    r.push(t.code());
    r.extend_from_slice(event.as_slice());
    assert(r@ =~= seq![control_code(t)] + event@);
    r
}

// ---------------------------------------------------------------------------
// What the control messages hold, by their bytes.

/// The message for one finger, by its bytes.
proof fn lemma_touch_message(size: ScrcpySize, event: AndroidTouchEvent, p: Pointer)
    ensures
        ({
            let m = touch_message(size, event, p);
            &&& m.len() == 32
            &&& m[0] == control_code(ScrcpyControlMessageType::InjectTouchEvent)
            &&& m[1] == touch_code(event)
            &&& wire::be64_at(m, 2) == p.pointer_id
            &&& wire::be32_at(m, 10) == p.x
            &&& wire::be32_at(m, 14) == p.y
            &&& wire::be16_at(m, 18) == size.width
            &&& wire::be16_at(m, 20) == size.height
            &&& wire::be16_at(m, 22) == 0xffff
            &&& wire::be32_at(m, 24) == 1
            &&& wire::be32_at(m, 28) == 1
        }),
{
    let e = ScrcpyTouchEvent {
        action: touch_code(event),
        pointer_id: p.pointer_id as u64,
        position: ScrcpyPosition { point: pointer_point(p), screen_size: size },
        pressure: 0xffff,
        action_button: 1,
        buttons: 1,
    };
    let b = touch_bytes(e);
    let m = touch_message(size, event, p);
    law_touch_event_round_trip(e);
    assert(b.len() == 31);
    assert(m.len() == 32 && m.skip(1) =~= b && m[0] == control_code(
        ScrcpyControlMessageType::InjectTouchEvent,
    ) && m[1] == b[0]);
    let (x, y) = (p.x, p.y);
    assert((x as i32) as u32 == x && (y as i32) as u32 == y) by (bit_vector);
    lemma_touch_fields(m, b, e);
}

/// The fields of a touch event behind the first byte of its message.
proof fn lemma_touch_fields(m: Seq<u8>, b: Seq<u8>, e: ScrcpyTouchEvent)
    requires
        b.len() == 31,
        m.len() == 32,
        m.skip(1) == b,
        wire::be64_at(b, 1) == e.pointer_id,
        wire::be32_at(b, 9) as i32 == e.position.point.x,
        wire::be32_at(b, 13) as i32 == e.position.point.y,
        wire::be16_at(b, 17) == e.position.screen_size.width,
        wire::be16_at(b, 19) == e.position.screen_size.height,
        wire::be16_at(b, 21) == e.pressure,
        wire::be32_at(b, 23) as i32 == e.action_button,
        wire::be32_at(b, 27) as i32 == e.buttons,
    ensures
        wire::be64_at(m, 2) == e.pointer_id,
        wire::be32_at(m, 10) == e.position.point.x as u32,
        wire::be32_at(m, 14) == e.position.point.y as u32,
        wire::be16_at(m, 18) == e.position.screen_size.width,
        wire::be16_at(m, 20) == e.position.screen_size.height,
        wire::be16_at(m, 22) == e.pressure,
        wire::be32_at(m, 24) == e.action_button as u32,
        wire::be32_at(m, 28) == e.buttons as u32,
{
    lemma_at_offset(m, b);
    lemma_be32_signed(b, 9, e.position.point.x);
    lemma_be32_signed(b, 13, e.position.point.y);
    lemma_be32_signed(b, 23, e.action_button);
    lemma_be32_signed(b, 27, e.buttons);
}

/// Numbers behind a first byte are those of what follows it.
proof fn lemma_at_offset(m: Seq<u8>, b: Seq<u8>)
    requires
        m.len() == b.len() + 1,
        m.skip(1) == b,
    ensures
        forall|at: int| 0 <= at && at + 2 <= b.len() ==> #[trigger] wire::be16_at(b, at)
            == wire::be16_at(m, at + 1),
        forall|at: int| 0 <= at && at + 4 <= b.len() ==> #[trigger] wire::be32_at(b, at)
            == wire::be32_at(m, at + 1),
        forall|at: int| 0 <= at && at + 8 <= b.len() ==> #[trigger] wire::be64_at(b, at)
            == wire::be64_at(m, at + 1),
{
    assert forall|i: int| 0 <= i < b.len() implies b[i] == #[trigger] m[i + 1] by {
        assert(m.skip(1)[i] == m[i + 1]);
    }
    assert forall|at: int| 0 <= at && at + 2 <= b.len() implies #[trigger] wire::be16_at(b, at)
        == wire::be16_at(m, at + 1) by {
        assert(b[at] == m[at + 1] && b[at + 1] == m[at + 1 + 1]);
    }
    assert forall|at: int| 0 <= at && at + 4 <= b.len() implies #[trigger] wire::be32_at(b, at)
        == wire::be32_at(m, at + 1) by {
        assert(wire::be16_at(b, at) == wire::be16_at(m, at + 1));
        assert(wire::be16_at(b, at + 2) == wire::be16_at(m, at + 2 + 1));
    }
    assert forall|at: int| 0 <= at && at + 8 <= b.len() implies #[trigger] wire::be64_at(b, at)
        == wire::be64_at(m, at + 1) by {
        assert(wire::be32_at(b, at) == wire::be32_at(m, at + 1));
        assert(wire::be32_at(b, at + 4) == wire::be32_at(m, at + 4 + 1));
    }
}

proof fn lemma_be32_signed(b: Seq<u8>, at: int, v: i32)
    requires
        wire::be32_at(b, at) as i32 == v,
    ensures
        wire::be32_at(b, at) == v as u32,
{
    let u = wire::be32_at(b, at);
    assert(u as i32 == v ==> u == v as u32) by (bit_vector);
}

/// What a touch of the screen injects: one message for every finger, in their order. Its
/// second byte is 0 for fingers that come down, 1 for those that go up and 2 for those that
/// move; behind it stand the number of the finger, its place and the size of the screen. A
/// touch of the pad injects the same where the report is about no touch of the screen.
pub proof fn law_touches_are_injected(server: ControlServer, report: InputReport, i: int)
    requires
        report.touch_event is Some || report.touchpad_event is Some,
        ({
            let t = if report.touch_event is Some {
                report.touch_event->0
            } else {
                report.touchpad_event->0
            };
            t.action != PointerAction::Other && 0 <= i < t.pointer_data@.len()
        }),
    ensures
        ({
            let t = if report.touch_event is Some {
                report.touch_event->0
            } else {
                report.touchpad_event->0
            };
            let messages = server.report_messages(report);
            let m = messages[i];
            let p = t.pointer_data@[i];
            &&& messages.len() == t.pointer_data@.len()
            &&& m.len() == 32
            &&& m[0] == 2
            &&& t.action == PointerAction::Down ==> m[1] == 0
            &&& t.action == PointerAction::Up ==> m[1] == 1
            &&& t.action == PointerAction::Moved ==> m[1] == 2
            &&& wire::be64_at(m, 2) == p.pointer_id
            &&& wire::be32_at(m, 10) == p.x
            &&& wire::be32_at(m, 14) == p.y
            &&& wire::be16_at(m, 18) == server.screen_size.width
            &&& wire::be16_at(m, 20) == server.screen_size.height
            &&& wire::be16_at(m, 22) == 0xffff
            &&& wire::be32_at(m, 24) == 1
            &&& wire::be32_at(m, 28) == 1
        }),
{
    let t = if report.touch_event is Some {
        report.touch_event->0
    } else {
        report.touchpad_event->0
    };
    lemma_touch_message(server.screen_size, touch_event_of(t.action)->0, t.pointer_data@[i]);
}

/// No two of the actions of a finger give the same message.
pub proof fn law_finger_actions_differ(size: ScrcpySize, a: TouchReport, b: TouchReport, i: int)
    requires
        a.action != PointerAction::Other,
        b.action != PointerAction::Other,
        a.action != b.action,
        0 <= i < a.pointer_data@.len(),
        i < b.pointer_data@.len(),
    ensures
        touch_messages(size, a)[i] != touch_messages(size, b)[i],
{
    lemma_touch_message(size, touch_event_of(a.action)->0, a.pointer_data@[i]);
    lemma_touch_message(size, touch_event_of(b.action)->0, b.pointer_data@[i]);
}

/// An action that is none of these injects nothing and moves nothing.
pub proof fn law_other_touches_inject_nothing(server: ControlServer, report: InputReport)
    requires
        report.touch_event is Some ==> report.touch_event->0.action == PointerAction::Other,
        report.touch_event is None ==> report.touchpad_event is Some
            && report.touchpad_event->0.action == PointerAction::Other,
    ensures
        server.report_messages(report).len() == 0,
        server.report_touch(report) == server.last_touched_point,
{
}

/// What keys inject: one message for every key, in their order. Its second byte is 0 where
/// the key goes down and 1 where it goes up; the code of the key follows.
pub proof fn law_keys_are_injected(server: ControlServer, report: InputReport, i: int)
    requires
        report.touch_event is None,
        report.touchpad_event is None,
        report.key_event is Some,
        0 <= i < (report.key_event->0)@.len(),
    ensures
        ({
            let keys = (report.key_event->0)@;
            let messages = server.report_messages(report);
            let m = messages[i];
            &&& messages.len() == keys.len()
            &&& m.len() == 14
            &&& m[0] == 0
            &&& keys[i].down ==> m[1] == 0
            &&& !keys[i].down ==> m[1] == 1
            &&& wire::be32_at(m, 2) == keys[i].keycode
            &&& wire::be32_at(m, 6) == 0
            &&& wire::be32_at(m, 10) == 0
        }),
{
    let k = (report.key_event->0)@[i];
    let m = key_message(k);
    assert(server.report_messages(report)[i] == m);
    let e = ScrcpyKeyEvent {
        action: key_code_of(
            if k.down {
                AndroidKeyEvent::Down
            } else {
                AndroidKeyEvent::Up
            },
        ),
        key_code: k.keycode as i32,
        repeat: 0,
        metastate: 0,
    };
    let b = key_bytes(e);
    let code = k.keycode;
    law_key_event_round_trip(e);
    assert((code as i32) as u32 == code) by (bit_vector);
    assert(m.skip(1) =~= b);
    lemma_at_offset(m, b);
    lemma_be32_signed(b, 1, e.key_code);
    lemma_be32_signed(b, 5, 0);
    lemma_be32_signed(b, 9, 0);
}

/// The message for a turn of the rotary controller, by its bytes: it scrolls up or down, by
/// the turn, where the screen was touched last.
pub proof fn law_turn_scrolls_where_touched(size: ScrcpySize, at: ScrcpyPoint, delta: i32)
    ensures
        ({
            let m = scroll_message(size, at, delta);
            &&& m.len() == 21
            &&& m[0] == 3
            &&& wire::be32_at(m, 1) as i32 == at.x
            &&& wire::be32_at(m, 5) as i32 == at.y
            &&& wire::be16_at(m, 9) == size.width
            &&& wire::be16_at(m, 11) == size.height
            &&& wire::be16_at(m, 13) == 0
            &&& -0x8000 <= delta <= 0x7fff ==> wire::be16_at(m, 15) as i16 == delta
            &&& wire::be32_at(m, 17) == 1
        }),
{
    let e = ScrcpyScrollEvent {
        position: at,
        screen_size: size,
        hscroll: 0,
        vscroll: delta as i16,
        buttons: 1,
    };
    let b = scroll_bytes(e);
    let m = scroll_message(size, at, delta);
    law_scroll_event_round_trip(e);
    assert(m.skip(1) =~= b);
    lemma_at_offset(m, b);
    lemma_be32_signed(b, 16, 1);
    let h = wire::be16_at(b, 12);
    assert(h as i16 == 0i16 ==> h == 0) by (bit_vector);
}

/// Turns of the rotary controller, told by the key code 65536, scroll one after the other;
/// other controls do nothing.
pub proof fn law_only_the_rotary_controller_scrolls(
    size: ScrcpySize,
    at: ScrcpyPoint,
    events: Seq<RelativeReport>,
    e: RelativeReport,
)
    ensures
        scroll_messages(size, at, Seq::empty()).len() == 0,
        e.keycode == 65536 ==> scroll_messages(size, at, events.push(e)) == scroll_messages(
            size,
            at,
            events,
        ).push(scroll_message(size, at, e.delta)),
        e.keycode != 65536 ==> scroll_messages(size, at, events.push(e)) == scroll_messages(
            size,
            at,
            events,
        ),
{
    assert(events.push(e).drop_last() =~= events);
}

/// Which part of a report counts: a touch of the screen before one of the pad, then keys,
/// then turns; absolute values hide turns and are not passed on themselves.
pub proof fn law_first_part_of_a_report_counts(server: ControlServer, r: InputReport)
    ensures
        r.touch_event is None && r.touchpad_event is None && r.key_event is None
            && !r.absolute_event && r.relative_event is Some ==> server.report_messages(r)
            == scroll_messages(
            server.screen_size,
            server.last_touched_point,
            (r.relative_event->0)@,
        ),
        r.touch_event is None && r.touchpad_event is None && r.key_event is None
            && r.absolute_event ==> server.report_messages(r).len() == 0,
        r.touch_event is None && r.touchpad_event is None && r.key_event is None
            && r.relative_event is None ==> server.report_messages(r).len() == 0,
        r.touch_event is None && r.touchpad_event is None ==> server.report_touch(r)
            == server.last_touched_point,
{
}

/// Where the screen was touched last is where the last finger of a report went up; fingers
/// that come down or move do not count.
pub proof fn law_last_touch_is_where_a_finger_went_up(server: ControlServer, r: InputReport)
    requires
        r.touch_event is Some || r.touchpad_event is Some,
    ensures
        ({
            let t = if r.touch_event is Some {
                r.touch_event->0
            } else {
                r.touchpad_event->0
            };
            let fingers = t.pointer_data@;
            &&& t.action == PointerAction::Up && fingers.len() > 0 ==> server.report_touch(r).x
                == fingers[fingers.len() - 1].x as i32 && server.report_touch(r).y
                == fingers[fingers.len() - 1].y as i32
            &&& t.action != PointerAction::Up || fingers.len() == 0 ==> server.report_touch(r)
                == server.last_touched_point
        }),
{
}

/// The messages do not depend on where the channel of the input service is or on whether the
/// display is switched off.
pub proof fn law_injection_needs_size_and_last_touch(
    a: ControlServer,
    b: ControlServer,
    r: InputReport,
)
    requires
        a.screen_size == b.screen_size,
        a.last_touched_point == b.last_touched_point,
    ensures
        a.report_messages(r) == b.report_messages(r),
        a.report_touch(r) == b.report_touch(r),
{
}

/// The numbers that the screen copy server and Android give to messages and events.
pub proof fn law_numbers_of_control_messages()
    ensures
        control_code(ScrcpyControlMessageType::InjectKeycode) == 0,
        control_code(ScrcpyControlMessageType::InjectTouchEvent) == 2,
        control_code(ScrcpyControlMessageType::InjectScrollEvent) == 3,
        control_code(ScrcpyControlMessageType::BackOrScreenOn) == 4,
        control_code(ScrcpyControlMessageType::SetDisplayPower) == 10,
        control_code(ScrcpyControlMessageType::RotateDevice) == 11,
        touch_code(AndroidTouchEvent::Down) == 0,
        touch_code(AndroidTouchEvent::Up) == 1,
        touch_code(AndroidTouchEvent::Move) == 2,
        touch_code(AndroidTouchEvent::Scroll) == 8,
        touch_code(AndroidTouchEvent::BackOrScreenOn) == 9,
{
}

/// The display is switched off by the bytes 0A 00, and nothing is sent where it is to stay on.
pub proof fn law_display_is_switched_off(server: ControlServer)
    ensures
        !server.cfg_screen_off ==> server.first_message() is None,
        server.cfg_screen_off ==> server.first_message() == Some(seq![10u8, 0u8]),
{
}

/// Only the cancel command ends the control server: a packet of the bytes F0 00 with the bytes
/// 00 00 behind them. Only a packet of the bytes 80 01 that could be read leads to
/// messages, those of its report, and moves the last touch. Everything else is dropped.
pub proof fn law_control_packets(
    server: ControlServer,
    p: PacketView,
    report: InputReport,
)
    requires
        messages::readable(p),
    ensures
        ControlServer::ends_server(p) <==> p.payload[0] == 0xF0 && p.payload[1] == 0
            && p.payload[2] == 0 && p.payload[3] == 0,
        server.packet_messages(p, None).len() == 0 && server.after_packet(p, None) == server,
        p.payload[0] == 0x80 && p.payload[1] == 0x01 ==> server.packet_messages(p, Some(&report))
            == server.report_messages(report) && server.after_packet(p, Some(&report)) == (
        ControlServer { last_touched_point: server.report_touch(report), ..server }),
        p.payload[0] != 0x80 || p.payload[1] != 0x01 ==> server.packet_messages(
            p,
            Some(&report),
        ).len() == 0 && server.after_packet(p, Some(&report)) == server,
{
}

} // verus!
