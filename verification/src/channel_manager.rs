//! Packets, their frames on the wire, and the buffers that carry TLS records.
use std::collections::VecDeque;

use vstd::prelude::*;

use crate::aa_services::CommandState;
use crate::protos;
use crate::wire;

verus! {

/// Length of the header that every frame has.
pub const HEADER_LENGTH: usize = 4;

pub const FRAME_TYPE_FIRST: u8 = 1;

pub const FRAME_TYPE_LAST: u8 = 2;

pub const FRAME_TYPE_MASK: u8 = 3;

pub const FRAME_TYPE_CONTROL: u8 = 4;

pub const ENCRYPTED: u8 = 8;

/// A frame that is complete in itself: FIRST and LAST.
pub const FRAME_TYPE_FULL: u8 = 3;

/// A complete frame whose payload is encrypted.
pub const ENCRYPTED_FULL: u8 = 11;

/// A complete encrypted frame of a control message on a service's channel.
pub const ENCRYPTED_FULL_CONTROL: u8 = 15;

/// Location of the private keys and certificates.
pub const KEYS_PATH: &'static str = "/etc/aa-mirror-rs";

#[derive(Clone, Copy, Debug, PartialEq, Eq, Structural)]
pub enum DeviceType {
    HeadUnit,
    MobileDevice,
}

#[derive(Clone, Copy, Debug, PartialEq, Eq, Structural)]
pub struct CmdStatus {
    pub status: CommandState,
}

impl Default for CmdStatus {
    fn default() -> (r: Self)
        ensures
            r.status == CommandState::NotDone,
    {
        CmdStatus { status: CommandState::NotDone }
    }
}

#[derive(Clone, Debug)]
pub struct Packet {
    pub channel: u8,
    pub flags: u8,
    pub final_length: Option<u32>,
    pub payload: Vec<u8>,
}

/// A packet with its payload as a sequence.
#[verifier::ext_equal]
pub struct PacketView {
    pub channel: u8,
    pub flags: u8,
    pub final_length: Option<u32>,
    pub payload: Seq<u8>,
}

impl View for Packet {
    type V = PacketView;

    open spec fn view(&self) -> PacketView {
        PacketView {
            channel: self.channel,
            flags: self.flags,
            final_length: self.final_length,
            payload: self.payload@,
        }
    }
}

/// The packets of a sequence, by their views.
pub open spec fn packet_views(packets: Seq<Packet>) -> Seq<PacketView> {
    packets.map_values(|p: Packet| p@)
}

/// Whether the payload of a packet with these flags is encrypted.
pub open spec fn is_encrypted(flags: u8) -> bool {
    flags & ENCRYPTED != 0
}

/// Whether a frame with these flags opens a message that further frames go on with.
pub open spec fn opens_message(flags: u8) -> bool {
    flags & FRAME_TYPE_MASK == FRAME_TYPE_FIRST
}

impl PacketView {
    /// Whether the total length is there exactly where the flags announce it, and
    /// the payload's length fits its field. Only such packets survive a transfer.
    pub open spec fn well_formed(self) -> bool {
        &&& self.payload.len() <= 0xFFFF
        &&& self.final_length is Some <==> opens_message(self.flags)
    }

    /// The number that the first two bytes of the payload hold.
    pub open spec fn message_id(self) -> u16 {
        wire::be16_at(self.payload, 0)
    }
}

/// The bytes of a frame: channel, flags, the payload's length in 16 bits, the
/// total length where there is one, the payload.
pub open spec fn frame_bytes(p: PacketView) -> Seq<u8> {
    seq![p.channel, p.flags] + wire::be16((p.payload.len() % 0x1_0000) as u16) + (
    match p.final_length {
        Some(n) => wire::be32(n),
        None => Seq::<u8>::empty(),
    }) + p.payload
}

/// The length of the header at the start of `s`.
pub open spec fn header_size(s: Seq<u8>) -> nat {
    if opens_message(s[1]) {
        8
    } else {
        4
    }
}

/// The length of the frame at the start of `s`.
pub open spec fn frame_size(s: Seq<u8>) -> nat {
    header_size(s) + wire::be16_at(s, 2) as nat
}

/// Whether `s` starts with a whole frame.
pub open spec fn has_frame(s: Seq<u8>) -> bool {
    s.len() >= 4 && s.len() >= header_size(s) && s.len() >= frame_size(s)
}

/// The packet in the frame at the start of `s`.
pub open spec fn first_packet(s: Seq<u8>) -> PacketView {
    PacketView {
        channel: s[0],
        flags: s[1],
        final_length: if opens_message(s[1]) {
            Some(wire::be32_at(s, 4))
        } else {
            None
        },
        payload: s.subrange(header_size(s) as int, frame_size(s) as int),
    }
}

/// The packets of the whole frames at the start of `s`.
pub open spec fn packets_in(s: Seq<u8>) -> Seq<PacketView>
    decreases s.len(),
{
    if has_frame(s) {
        seq![first_packet(s)] + packets_in(s.skip(frame_size(s) as int))
    } else {
        seq![]
    }
}

/// What is left of `s` after the whole frames at its start.
pub open spec fn unfinished(s: Seq<u8>) -> Seq<u8>
    decreases s.len(),
{
    if has_frame(s) {
        unfinished(s.skip(frame_size(s) as int))
    } else {
        s
    }
}

/// The frames of the packets, one after the other.
pub open spec fn frames_of(packets: Seq<PacketView>) -> Seq<u8>
    decreases packets.len(),
{
    if packets.len() == 0 {
        seq![]
    } else {
        frame_bytes(packets[0]) + frames_of(packets.skip(1))
    }
}

/// A frame that was written is read back as the same packet, whatever follows it.
pub proof fn law_frame_round_trip(p: PacketView, after: Seq<u8>)
    requires
        p.well_formed(),
    ensures
        has_frame(frame_bytes(p) + after),
        first_packet(frame_bytes(p) + after) == p,
        frame_size(frame_bytes(p) + after) == frame_bytes(p).len(),
{
    let head = seq![p.channel, p.flags];
    let len = (p.payload.len() % 0x1_0000) as u16;
    let s = frame_bytes(p) + after;
    assert(s[0] == p.channel && s[1] == p.flags);
    match p.final_length {
        Some(n) => {
            wire::law_be16_round_trip(head, len, wire::be32(n) + p.payload + after);
            assert(s =~= head + wire::be16(len) + (wire::be32(n) + p.payload + after));
            wire::law_be32_round_trip(head + wire::be16(len), n, p.payload + after);
            assert(s =~= (head + wire::be16(len)) + wire::be32(n) + (p.payload + after));
            assert(s.subrange(8, 8 + p.payload.len() as int) =~= p.payload);
        },
        None => {
            wire::law_be16_round_trip(head, len, p.payload + after);
            assert(s =~= head + wire::be16(len) + (p.payload + after));
            assert(s.subrange(4, 4 + p.payload.len() as int) =~= p.payload);
        },
    }
}

/// Packets that were written one after the other are read back in the same order,
/// and reading goes on with what follows them.
pub proof fn law_packets_round_trip(packets: Seq<PacketView>, after: Seq<u8>)
    requires
        forall|i: int| 0 <= i < packets.len() ==> (#[trigger] packets[i]).well_formed(),
    ensures
        packets_in(frames_of(packets) + after) == packets + packets_in(after),
        unfinished(frames_of(packets) + after) == unfinished(after),
    decreases packets.len(),
{
    if packets.len() == 0 {
        assert(frames_of(packets) + after =~= after);
        assert(packets + packets_in(after) =~= packets_in(after));
    } else {
        let rest = packets.skip(1);
        let tail = frames_of(rest) + after;
        let s = frames_of(packets) + after;
        law_frame_round_trip(packets[0], tail);
        assert(s =~= frame_bytes(packets[0]) + tail);
        assert(s.skip(frame_bytes(packets[0]).len() as int) =~= tail);
        assert forall|i: int| 0 <= i < rest.len() implies (#[trigger] rest[i]).well_formed() by {
            assert(rest[i] == packets[i + 1]);
        }
        law_packets_round_trip(rest, after);
        assert(seq![packets[0]] + (rest + packets_in(after)) =~= packets + packets_in(after));
    }
}

/// How the stream is cut into reads does not matter: reading `a` and later `b`
/// gives the packets that `a + b` gives at once, and keeps the same unfinished frame.
pub proof fn law_packets_do_not_depend_on_reads(a: Seq<u8>, b: Seq<u8>)
    ensures
        packets_in(a + b) == packets_in(a) + packets_in(unfinished(a) + b),
        unfinished(a + b) == unfinished(unfinished(a) + b),
    decreases a.len(),
{
    if has_frame(a) {
        let n = frame_size(a) as int;
        let ab = a + b;
        assert(ab[0] == a[0] && ab[1] == a[1] && ab[2] == a[2] && ab[3] == a[3]);
        if opens_message(a[1]) {
            assert(ab[4] == a[4] && ab[5] == a[5] && ab[6] == a[6] && ab[7] == a[7]);
        }
        assert(ab.subrange(header_size(a) as int, n) =~= a.subrange(header_size(a) as int, n));
        assert(first_packet(ab) == first_packet(a));
        assert(ab.skip(n) =~= a.skip(n) + b);
        law_packets_do_not_depend_on_reads(a.skip(n), b);
        assert(packets_in(ab) =~= packets_in(a) + packets_in(unfinished(a) + b));
    } else {
        assert(packets_in(a + b) =~= packets_in(a) + packets_in(unfinished(a) + b));
    }
}

impl Packet {
    /// Composes the final frame that goes to the endpoint device.
    pub fn transmit(&self) -> (frame: Vec<u8>)
        ensures
            frame@ == frame_bytes(self@),
    {
        let len: u16 = (self.payload.len() % 0x1_0000) as u16;
        let mut frame: Vec<u8> = Vec::new();
        frame.push(self.channel);
        frame.push(self.flags);
        assert(frame@ =~= seq![self.channel, self.flags]);
        wire::push_be16(&mut frame, len);
        if let Some(final_len) = self.final_length {
            // additional 4 bytes of total length
            wire::push_be32(&mut frame, final_len);
        }
        assert(frame@ + self.payload@ =~= frame_bytes(self@));
        frame.extend_from_slice(self.payload.as_slice());
        assert(frame@ =~= frame_bytes(self@));
        frame
    }

    /// The number that the first two bytes of the payload hold.
    pub fn message_id(&self) -> (id: u16)
        requires
            self.payload@.len() >= 2,
        ensures
            id == self@.message_id(),
    {
        wire::read_be16(self.payload.as_slice(), 0)
    }
}

/// Takes the first `n` bytes off the queue.
pub fn take_front(queue: &mut VecDeque<u8>, n: usize) -> (r: Vec<u8>)
    requires
        n <= old(queue)@.len(),
    ensures
        r@ == old(queue)@.take(n as int),
        final(queue)@ == old(queue)@.skip(n as int),
{
    let mut r: Vec<u8> = Vec::new();
    let mut i: usize = 0;
    let ghost all = queue@;
    assert(all.skip(0) =~= all);
    while i < n
        invariant
            i <= n <= all.len(),
            queue@ == all.skip(i as int),
            r@ == all.take(i as int),
        decreases n - i,
    {
        match queue.pop_front() {
            Some(b) => {
                r.push(b);
            },
            None => {},
        }
        assert(r@ =~= all.take(i + 1));
        assert(queue@ =~= all.skip(i + 1));
        i = i + 1;
    }
    r
}

/// Puts all of `data` at the end of the queue.
pub fn append_all(queue: &mut VecDeque<u8>, data: &[u8])
    ensures
        final(queue)@ == old(queue)@ + data@,
{
    let mut i: usize = 0;
    let ghost start = queue@;
    while i < data.len()
        invariant
            i <= data@.len(),
            queue@ == start + data@.take(i as int),
        decreases data@.len() - i,
    {
        queue.push_back(data[i]);
        assert(queue@ =~= start + data@.take(i + 1));
        i = i + 1;
    }
    assert(data@.take(i as int) =~= data@);
}

/// The kinds of device that input is read from.
#[derive(Clone, Copy, Debug, PartialEq, Eq, Structural)]
pub enum InputKind {
    Usb,
    Endpoint,
    Tcp,
}

#[derive(Clone, Copy, Debug, PartialEq, Eq, Structural)]
pub enum ReadError {
    /// The peer closed the TCP connection.
    Eof,
}

/// What a read of `len` bytes means: of nothing from a TCP stream, that the peer is gone.
pub open spec fn read_result(kind: InputKind, len: usize) -> Result<usize, ReadError> {
    if kind == InputKind::Tcp && len == 0 {
        Err(ReadError::Eof)
    } else {
        Ok(len)
    }
}

/// Keeps the `len` bytes that one read put at the start of `newdata`.
/// A read of nothing from a TCP stream means that the peer is gone.
pub fn read_input_data(
    rbuf: &mut VecDeque<u8>,
    kind: InputKind,
    newdata: &[u8],
    len: usize,
) -> (r: Result<usize, ReadError>)
    requires
        len <= newdata@.len(),
    ensures
        r == read_result(kind, len),
        final(rbuf)@ == old(rbuf)@ + newdata@.take(len as int),
{
    if kind == InputKind::Tcp && len == 0 {
        assert(rbuf@ =~= rbuf@ + newdata@.take(0));
        return Err(ReadError::Eof);
    }
    append_all(rbuf, vstd::slice::slice_subrange(newdata, 0, len));
    assert(newdata@.subrange(0, len as int) =~= newdata@.take(len as int));
    Ok(len)
}

/// Takes the packets of all whole frames off the front of the buffer.
pub fn endpoint_reader(rbuf: &mut VecDeque<u8>) -> (packets: Vec<Packet>)
    ensures
        packet_views(packets@) == packets_in(old(rbuf)@),
        final(rbuf)@ == unfinished(old(rbuf)@),
{
    let ghost all = rbuf@;
    let mut packets: Vec<Packet> = Vec::new();
    assert(packet_views(packets@) + packets_in(rbuf@) =~= packets_in(all));
    // Accept packets as soon as the complete fixed header is there:
    // a frame without payload is no longer than that.
    while rbuf.len() >= HEADER_LENGTH
        invariant
            packet_views(packets@) + packets_in(rbuf@) == packets_in(all),
            unfinished(rbuf@) == unfinished(all),
        ensures
            packet_views(packets@) == packets_in(all),
            rbuf@ == unfinished(all),
        decreases rbuf@.len(),
    {
        let ghost s = rbuf@;
        let channel: u8 = rbuf[0];
        let flags: u8 = rbuf[1];
        let first: bool = (flags & FRAME_TYPE_MASK) == FRAME_TYPE_FIRST;
        // A FIRST frame has an extended header: wait for the rest of it.
        if first && rbuf.len() < 8 {
            assert(packets_in(s) =~= Seq::<PacketView>::empty());
            assert(packet_views(packets@) =~= packets_in(all));
            break;
        }
        let payload_size: usize = rbuf[2] as usize * 256 + rbuf[3] as usize;
        let mut header: usize = HEADER_LENGTH;
        let mut final_length: Option<u32> = None;
        if first {
            header = 8;
            let hi: u32 = rbuf[4] as u32 * 256 + rbuf[5] as u32;
            let lo: u32 = rbuf[6] as u32 * 256 + rbuf[7] as u32;
            final_length = Some(hi * 0x1_0000 + lo);
        }
        let size: usize = header + payload_size;
        assert(size == frame_size(s));
        if rbuf.len() < size {
            assert(packets_in(s) =~= Seq::<PacketView>::empty());
            assert(packet_views(packets@) =~= packets_in(all));
            break;
        }
        let _header = take_front(rbuf, header);
        let payload = take_front(rbuf, payload_size);
        let ghost before = packet_views(packets@);
        let pkt = Packet { channel, flags, final_length, payload };
        assert(pkt@.payload =~= first_packet(s).payload);
        assert(pkt@ == first_packet(s));
        assert(rbuf@ =~= s.skip(frame_size(s) as int));
        packets.push(pkt);
        assert(packet_views(packets@) =~= before.push(first_packet(s)));
        assert(before + packets_in(s) =~= packet_views(packets@) + packets_in(rbuf@));
        proof {
            if rbuf@.len() < HEADER_LENGTH {
                assert(packets_in(rbuf@) =~= Seq::<PacketView>::empty());
                assert(packet_views(packets@) =~= packets_in(all));
            }
        }
    }
    packets
}

/// The two directions of a TLS session that runs over memory.
///
/// The TLS engine reads what the peer sent from `client_stream` and leaves what
/// is to be sent in `server_stream`.
#[derive(Debug)]
pub struct SslStreams {
    /// What the engine wrote and the peer is to read.
    pub server_stream: VecDeque<u8>,
    /// What the peer wrote and the engine is to read.
    pub client_stream: VecDeque<u8>,
}

/// The two directions of a TLS session as sequences.
#[verifier::ext_equal]
pub struct SslStreamsView {
    pub server_stream: Seq<u8>,
    pub client_stream: Seq<u8>,
}

impl View for SslStreams {
    type V = SslStreamsView;

    open spec fn view(&self) -> SslStreamsView {
        SslStreamsView {
            server_stream: self.server_stream@,
            client_stream: self.client_stream@,
        }
    }
}

impl SslStreamsView {
    /// The streams after the engine has written the bytes.
    pub open spec fn written(self, buf: Seq<u8>) -> SslStreamsView {
        SslStreamsView { server_stream: self.server_stream + buf, ..self }
    }

    /// The streams after what the engine wrote has been moved out.
    pub open spec fn drained(self) -> SslStreamsView {
        SslStreamsView { server_stream: Seq::empty(), ..self }
    }

    /// The streams after the peer's bytes have been handed to the engine.
    pub open spec fn handed(self, buf: Seq<u8>) -> SslStreamsView {
        SslStreamsView { client_stream: self.client_stream + buf, ..self }
    }

    /// The streams after the engine has read `n` bytes.
    pub open spec fn consumed(self, n: int) -> SslStreamsView {
        SslStreamsView { client_stream: self.client_stream.skip(n), ..self }
    }
}

/// What the engine wrote in two writes, behind what was there before, comes out whole and
/// in order, behind what the target holds; nothing is left, and what the peer sent is not
/// touched.
pub proof fn law_writes_come_out_in_order(
    m: SslStreamsView,
    a: Seq<u8>,
    b: Seq<u8>,
    target: Seq<u8>,
)
    ensures
        m.written(a).written(b).server_stream.len() == m.server_stream.len() + a.len() + b.len(),
        target + m.written(a).written(b).server_stream == target + m.server_stream + a + b,
        m.written(a).written(b).drained() == (SslStreamsView {
            server_stream: Seq::empty(),
            client_stream: m.client_stream,
        }),
{
    assert(target + m.written(a).written(b).server_stream =~= target + m.server_stream + a + b);
}

/// What the peer sent in two parts, behind what was there before, is read by the engine
/// whole and in order, wherever its reads end, and what the engine wrote is not touched.
pub proof fn law_reads_follow_the_peer(m: SslStreamsView, a: Seq<u8>, b: Seq<u8>, n: int)
    requires
        0 <= n <= m.client_stream.len() + a.len() + b.len(),
    ensures
        ({
            let full = m.handed(a).handed(b);
            &&& full.client_stream == m.client_stream + a + b
            &&& full.client_stream.take(n) + full.consumed(n).client_stream == full.client_stream
            &&& full.consumed(n).server_stream == m.server_stream
        }),
{
    let full = m.handed(a).handed(b);
    assert(full.client_stream.take(n) + full.consumed(n).client_stream =~= full.client_stream);
}

impl SslStreams {
    pub fn new() -> (r: Self)
        ensures
            r@ == (SslStreamsView { server_stream: Seq::empty(), client_stream: Seq::empty() }),
    {
        let r = SslStreams { server_stream: VecDeque::new(), client_stream: VecDeque::new() };
        assert(r@ =~= (SslStreamsView { server_stream: Seq::empty(), client_stream: Seq::empty() }));
        r
    }

    /// The read of the TLS engine: up to `max` bytes that the peer sent.
    pub fn read(&mut self, max: usize) -> (r: Vec<u8>)
        ensures
            r@.len() == if max <= old(self).client_stream@.len() {
                max as nat
            } else {
                old(self).client_stream@.len()
            },
            r@ == old(self).client_stream@.take(r@.len() as int),
            final(self)@ == old(self)@.consumed(r@.len() as int),
            final(self).server_stream == old(self).server_stream,
    {
        let available: usize = self.client_stream.len();
        let n: usize = if max <= available {
            max
        } else {
            available
        };
        take_front(&mut self.client_stream, n)
    }

    /// The write of the TLS engine: all of `buf` goes out.
    pub fn write(&mut self, buf: &[u8]) -> (n: usize)
        ensures
            n == buf@.len(),
            final(self)@ == old(self)@.written(buf@),
            final(self).client_stream == old(self).client_stream,
    {
        append_all(&mut self.server_stream, buf);
        buf.len()
    }

    /// Moves what the engine wrote to the end of `buf`.
    pub fn read_to(&mut self, buf: &mut Vec<u8>) -> (n: usize)
        ensures
            n == old(self).server_stream@.len(),
            final(buf)@ == old(buf)@ + old(self).server_stream@,
            final(self)@ == old(self)@.drained(),
            final(self).client_stream == old(self).client_stream,
    {
        let n: usize = self.server_stream.len();
        let ghost all = self.server_stream@;
        let mut data = take_front(&mut self.server_stream, n);
        assert(all.take(n as int) =~= all);
        buf.append(&mut data);
        assert(self.server_stream@ =~= Seq::<u8>::empty());
        n
    }

    /// Hands `buf` to the engine as sent by the peer.
    pub fn write_from(&mut self, buf: &[u8]) -> (n: usize)
        ensures
            n == buf@.len(),
            final(self)@ == old(self)@.handed(buf@),
            final(self).server_stream == old(self).server_stream,
    {
        append_all(&mut self.client_stream, buf);
        buf.len()
    }
}

/// The streams of the TLS sessions. They are reached through buffers, any number of which
/// stand for the same streams.
#[derive(Debug)]
pub struct SslMemory {
    streams: Vec<SslStreams>,
}

impl View for SslMemory {
    type V = Seq<SslStreamsView>;

    closed spec fn view(&self) -> Seq<SslStreamsView> {
        self.streams@.map_values(|s: SslStreams| s@)
    }
}

/// The buffer that a TLS engine reads from and writes to. Its clones stand for the same
/// streams, so that the engine has one and its caller another.
#[derive(Clone, Copy, Debug, PartialEq, Eq, Structural)]
pub struct SslMemBuf {
    index: usize,
}

/// The streams of a session that has not begun.
pub open spec fn empty_streams() -> SslStreamsView {
    SslStreamsView { server_stream: Seq::empty(), client_stream: Seq::empty() }
}

/// All streams, with those of the buffer replaced.
pub open spec fn with_streams(
    mem: Seq<SslStreamsView>,
    buf: SslMemBuf,
    streams: SslStreamsView,
) -> Seq<SslStreamsView> {
    mem.update(buf.place(), streams)
}

impl SslMemory {
    pub fn new() -> (r: Self)
        ensures
            r@ == Seq::<SslStreamsView>::empty(),
    {
        let r = SslMemory { streams: Vec::new() };
        assert(r@ =~= Seq::<SslStreamsView>::empty());
        r
    }

    /// Whether the buffer stands for streams that are here.
    pub fn holds(&self, buf: SslMemBuf) -> (b: bool)
        ensures
            b == buf.is_in(self@),
    {
        buf.index < self.streams.len()
    }

    /// The streams of two buffers that do not stand for the same.
    pub fn lock_both(&mut self, a: SslMemBuf, b: SslMemBuf) -> (r: (
        &mut SslStreams,
        &mut SslStreams,
    ))
        requires
            a.is_in(old(self)@),
            b.is_in(old(self)@),
            a.place() != b.place(),
        ensures
            r.0@ == a.streams(old(self)@),
            r.1@ == b.streams(old(self)@),
            final(self)@ == with_streams(
                with_streams(old(self)@, a, final(r.0)@),
                b,
                final(r.1)@,
            ),
    {
        if a.index < b.index {
            let (front, back) = self.streams.as_mut_slice().split_at_mut(b.index);
            (&mut front[a.index], &mut back[0])
        } else {
            let (front, back) = self.streams.as_mut_slice().split_at_mut(a.index);
            (&mut back[0], &mut front[b.index])
        }
    }
}

impl SslMemBuf {
    /// Where the streams of the buffer stand.
    pub closed spec fn place(self) -> int {
        self.index as int
    }

    /// Whether the streams of the buffer are among these.
    pub open spec fn is_in(self, mem: Seq<SslStreamsView>) -> bool {
        0 <= self.place() < mem.len()
    }

    /// The streams of the buffer.
    pub open spec fn streams(self, mem: Seq<SslStreamsView>) -> SslStreamsView {
        mem[self.place()]
    }

    /// All streams after a write of the engine to the buffer.
    pub open spec fn after_write(self, mem: Seq<SslStreamsView>, buf: Seq<u8>) -> Seq<
        SslStreamsView,
    > {
        with_streams(mem, self, self.streams(mem).written(buf))
    }

    /// All streams after what the engine wrote has been moved out of the buffer.
    pub open spec fn after_read_to(self, mem: Seq<SslStreamsView>) -> Seq<SslStreamsView> {
        with_streams(mem, self, self.streams(mem).drained())
    }

    /// All streams after the peer's bytes have been handed to the buffer.
    pub open spec fn after_write_from(self, mem: Seq<SslStreamsView>, buf: Seq<u8>) -> Seq<
        SslStreamsView,
    > {
        with_streams(mem, self, self.streams(mem).handed(buf))
    }

    /// All streams after the engine has read `n` bytes from the buffer.
    pub open spec fn after_read(self, mem: Seq<SslStreamsView>, n: int) -> Seq<SslStreamsView> {
        with_streams(mem, self, self.streams(mem).consumed(n))
    }

    /// A buffer with streams of its own, which are empty. What other buffers stand for
    /// stays.
    pub fn new(mem: &mut SslMemory) -> (r: Self)
        ensures
            r.place() == old(mem)@.len(),
            final(mem)@ == old(mem)@.push(empty_streams()),
    {
        let index: usize = mem.streams.len();
        mem.streams.push(SslStreams::new());
        assert(mem@ =~= old(mem)@.push(empty_streams()));
        SslMemBuf { index }
    }

    /// The streams of the buffer.
    pub fn lock(self, mem: &mut SslMemory) -> (r: &mut SslStreams)
        requires
            self.is_in(old(mem)@),
        ensures
            r@ == self.streams(old(mem)@),
            final(mem)@ == with_streams(old(mem)@, self, final(r)@),
    {
        &mut mem.streams[self.index]
    }

    /// The read of the TLS engine: up to `max` bytes that the peer sent.
    pub fn read(self, mem: &mut SslMemory, max: usize) -> (r: Vec<u8>)
        requires
            self.is_in(old(mem)@),
        ensures
            r@.len() == if max <= self.streams(old(mem)@).client_stream.len() {
                max as nat
            } else {
                self.streams(old(mem)@).client_stream.len()
            },
            r@ == self.streams(old(mem)@).client_stream.take(r@.len() as int),
            final(mem)@ == self.after_read(old(mem)@, r@.len() as int),
    {
        self.lock(mem).read(max)
    }

    /// The write of the TLS engine: all of `buf` goes out.
    pub fn write(self, mem: &mut SslMemory, buf: &[u8]) -> (n: usize)
        requires
            self.is_in(old(mem)@),
        ensures
            n == buf@.len(),
            final(mem)@ == self.after_write(old(mem)@, buf@),
    {
        self.lock(mem).write(buf)
    }

    /// Moves what the engine wrote to the end of `buf`.
    pub fn read_to(self, mem: &mut SslMemory, buf: &mut Vec<u8>) -> (n: usize)
        requires
            self.is_in(old(mem)@),
        ensures
            n == self.streams(old(mem)@).server_stream.len(),
            final(buf)@ == old(buf)@ + self.streams(old(mem)@).server_stream,
            final(mem)@ == self.after_read_to(old(mem)@),
    {
        self.lock(mem).read_to(buf)
    }

    /// Hands `buf` to the engine as sent by the peer.
    pub fn write_from(self, mem: &mut SslMemory, buf: &[u8]) -> (n: usize)
        requires
            self.is_in(old(mem)@),
        ensures
            n == buf@.len(),
            final(mem)@ == self.after_write_from(old(mem)@, buf@),
    {
        self.lock(mem).write_from(buf)
    }
}

/// What is written through some clones of a buffer, behind what was there before, is what
/// `read_to` through another clone moves out, whole and in order. Then every clone sees an
/// empty stream and what the peer sent as before, and all other streams are untouched.
pub proof fn law_clones_share_what_is_written(
    mem: Seq<SslStreamsView>,
    first: SslMemBuf,
    second: SslMemBuf,
    reader: SslMemBuf,
    a: Seq<u8>,
    b: Seq<u8>,
    target: Seq<u8>,
)
    requires
        reader.is_in(mem),
        first.place() == reader.place(),
        second.place() == reader.place(),
    ensures
        ({
            let full = second.after_write(first.after_write(mem, a), b);
            let done = reader.after_read_to(full);
            let before = reader.streams(mem);
            let out = reader.streams(full).server_stream;
            &&& reader.is_in(full)
            &&& out.len() == before.server_stream.len() + a.len() + b.len()
            &&& target + out == target + before.server_stream + a + b
            &&& done.len() == mem.len()
            &&& forall|any: SslMemBuf|
                any.is_in(mem) ==> #[trigger] any.streams(done) == if any.place()
                    == reader.place() {
                    SslStreamsView {
                        server_stream: Seq::empty(),
                        client_stream: before.client_stream,
                    }
                } else {
                    any.streams(mem)
                }
        }),
{
    law_writes_come_out_in_order(reader.streams(mem), a, b, target);
}

/// What the peer sent through some clones of a buffer, behind what was there before, is what
/// the engine reads through another clone, in order, and every clone sees what is left. All
/// other streams are untouched.
pub proof fn law_clones_share_what_is_received(
    mem: Seq<SslStreamsView>,
    first: SslMemBuf,
    second: SslMemBuf,
    reader: SslMemBuf,
    a: Seq<u8>,
    b: Seq<u8>,
    n: int,
)
    requires
        reader.is_in(mem),
        first.place() == reader.place(),
        second.place() == reader.place(),
        0 <= n <= reader.streams(mem).client_stream.len() + a.len() + b.len(),
    ensures
        ({
            let full = second.after_write_from(first.after_write_from(mem, a), b);
            let done = reader.after_read(full, n);
            let before = reader.streams(mem);
            let all = before.client_stream + a + b;
            &&& reader.is_in(full)
            &&& reader.streams(full).client_stream == all
            &&& done.len() == mem.len()
            &&& forall|any: SslMemBuf|
                any.is_in(mem) ==> #[trigger] any.streams(done) == if any.place()
                    == reader.place() {
                    SslStreamsView {
                        server_stream: before.server_stream,
                        client_stream: all.skip(n),
                    }
                } else {
                    any.streams(mem)
                }
        }),
{
    law_reads_follow_the_peer(reader.streams(mem), a, b, n);
}

/// A new buffer shares its streams with no other.
pub proof fn law_new_buffers_are_apart(mem: Seq<SslStreamsView>, new: SslMemBuf, old_buf: SslMemBuf)
    requires
        new.place() == mem.len(),
        old_buf.is_in(mem),
    ensures
        new.place() != old_buf.place(),
        old_buf.streams(mem.push(empty_streams())) == old_buf.streams(mem),
        new.streams(mem.push(empty_streams())) == empty_streams(),
{
}

/// The packet that carries TLS data during the handshake.
pub open spec fn ssl_packet(data: Seq<u8>) -> PacketView {
    PacketView {
        channel: 0,
        flags: FRAME_TYPE_FULL,
        final_length: None,
        payload: wire::be16(protos::MESSAGE_ENCAPSULATED_SSL) + data,
    }
}

/// The packet once its payload has been replaced by the records that the TLS engine made
/// of it, where it is to be encrypted.
pub open spec fn sealed_packet(p: PacketView, records: Seq<u8>) -> PacketView {
    if is_encrypted(p.flags) {
        PacketView { payload: records, ..p }
    } else {
        p
    }
}

/// The streams once a packet has taken the records out, where it is to be encrypted.
pub open spec fn after_sealing(p: PacketView, m: SslStreamsView) -> SslStreamsView {
    if is_encrypted(p.flags) {
        m.drained()
    } else {
        m
    }
}

/// The streams once an encrypted payload has been handed to the TLS engine.
pub open spec fn before_opening(p: PacketView, m: SslStreamsView) -> SslStreamsView {
    if is_encrypted(p.flags) {
        m.handed(p.payload)
    } else {
        m
    }
}

/// The packet once its payload has been replaced by what the TLS engine read from it, where
/// it is encrypted.
pub open spec fn opened_packet(p: PacketView, plain: Seq<u8>) -> PacketView {
    if is_encrypted(p.flags) {
        PacketView { payload: plain, ..p }
    } else {
        p
    }
}

/// A payload that is encrypted at one end of a TLS session and decrypted at the other is
/// the same, and so is all else of the packet. `sent` are the streams of the sending end
/// once its engine has written the records, `received` those of the receiving end, and
/// `engine` tells what the receiving engine reads from the bytes of its peer; it is taken
/// to hand back the plain payload for those records. A packet that is not to be encrypted
/// is left as it is at both ends, with the streams of both.
pub proof fn law_payload_round_trip(
    p: PacketView,
    sent: SslStreamsView,
    received: SslStreamsView,
    engine: spec_fn(Seq<u8>) -> Seq<u8>,
)
    requires
        is_encrypted(p.flags) ==> engine(received.client_stream + sent.server_stream) == p.payload,
    ensures
        ({
            let q = sealed_packet(p, sent.server_stream);
            let input = before_opening(q, received);
            &&& opened_packet(q, engine(input.client_stream)) == p
            &&& q.channel == p.channel && q.flags == p.flags && q.final_length == p.final_length
            &&& is_encrypted(p.flags) ==> after_sealing(p, sent).server_stream
                == Seq::<u8>::empty()
            &&& !is_encrypted(p.flags) ==> q == p && after_sealing(p, sent) == sent && input
                == received
        }),
{
}

/// What can go wrong with a payload in the TLS engine.
#[derive(Clone, Copy, Debug, PartialEq, Eq, Structural)]
pub enum EngineError {
    /// The plain payload could not be written.
    Write,
    /// The plain payload could not be read.
    Read,
}

/// How encrypting ends: it fails exactly for a packet that is to be encrypted and that the
/// engine did not take.
pub open spec fn sealing_result(flags: u8, written: bool) -> Result<(), EngineError> {
    if is_encrypted(flags) && !written {
        Err(EngineError::Write)
    } else {
        Ok(())
    }
}

/// How decrypting ends: it fails exactly for an encrypted packet that the engine could not
/// read.
pub open spec fn opening_result(flags: u8, read: bool) -> Result<(), EngineError> {
    if is_encrypted(flags) && !read {
        Err(EngineError::Read)
    } else {
        Ok(())
    }
}

impl Packet {
    /// Whether the payload is encrypted.
    pub fn is_encrypted(&self) -> (b: bool)
        ensures
            b == is_encrypted(self.flags),
    {
        self.flags & ENCRYPTED != 0
    }

    /// Replaces the plain payload by the records that the TLS engine made of it, where the
    /// packet is to be encrypted. `written` tells whether the engine took the payload; where
    /// it did not, the packet stays as it is.
    pub fn encrypt_payload(&mut self, written: bool, mem_buf: &mut SslStreams) -> (r: Result<
        (),
        EngineError,
    >)
        ensures
            r == sealing_result(old(self).flags, written),
            r is Ok ==> final(self)@ == sealed_packet(old(self)@, old(mem_buf)@.server_stream)
                && final(mem_buf)@ == after_sealing(old(self)@, old(mem_buf)@),
            r is Err ==> final(self)@ == old(self)@ && *final(mem_buf) == *old(mem_buf),
            !is_encrypted(old(self).flags) ==> *final(mem_buf) == *old(mem_buf),
            final(mem_buf).client_stream == old(mem_buf).client_stream,
    {
        if self.is_encrypted() {
            if !written {
                return Err(EngineError::Write);
            }
            let mut res: Vec<u8> = Vec::new();
            let _n: usize = mem_buf.read_to(&mut res);
            assert(res@ =~= old(mem_buf).server_stream@);
            self.payload = res;
        }
        Ok(())
    }

    /// Hands an encrypted payload to the TLS engine; returns whether there is one.
    pub fn decrypt_input(&self, mem_buf: &mut SslStreams) -> (b: bool)
        ensures
            b == is_encrypted(self.flags),
            final(mem_buf)@ == before_opening(self@, old(mem_buf)@),
            !b ==> *final(mem_buf) == *old(mem_buf),
            final(mem_buf).server_stream == old(mem_buf).server_stream,
    {
        if self.is_encrypted() {
            let _n: usize = mem_buf.write_from(self.payload.as_slice());
            true
        } else {
            false
        }
    }

    /// Replaces an encrypted payload by what the TLS engine read from it; where the engine
    /// read nothing for a failure, the packet stays as it is.
    pub fn decrypt_payload(&mut self, plain: Option<Vec<u8>>) -> (r: Result<(), EngineError>)
        ensures
            r == opening_result(old(self).flags, plain is Some),
            r is Ok ==> final(self)@ == match plain {
                Some(bytes) => opened_packet(old(self)@, bytes@),
                None => old(self)@,
            },
            r is Err ==> final(self)@ == old(self)@,
    {
        if self.is_encrypted() {
            match plain {
                Some(bytes) => {
                    self.payload = bytes;
                },
                None => {
                    return Err(EngineError::Read);
                },
            }
        }
        Ok(())
    }

    /// Hands the TLS data of a handshake packet to the TLS engine.
    pub fn ssl_decapsulate_write(&self, mem_buf: &mut SslStreams)
        requires
            self.payload@.len() >= 2,
        ensures
            final(mem_buf).client_stream@ == if self@.message_id()
                == protos::MESSAGE_ENCAPSULATED_SSL {
                old(mem_buf).client_stream@ + self.payload@.skip(2)
            } else {
                old(mem_buf).client_stream@
            },
            final(mem_buf).server_stream == old(mem_buf).server_stream,
    {
        if self.message_id() == protos::MESSAGE_ENCAPSULATED_SSL {
            let s = self.payload.as_slice();
            let _n: usize = mem_buf.write_from(vstd::slice::slice_subrange(s, 2, s.len()));
            assert(self.payload@.subrange(2, self.payload@.len() as int) =~= self.payload@.skip(2));
        }
    }
}

/// Puts what the TLS engine wrote into a handshake packet.
pub fn ssl_encapsulate(mem_buf: &mut SslStreams) -> (pkt: Packet)
    ensures
        pkt@ == ssl_packet(old(mem_buf).server_stream@),
        final(mem_buf).server_stream@ == Seq::<u8>::empty(),
        final(mem_buf).client_stream == old(mem_buf).client_stream,
{
    let mut payload: Vec<u8> = Vec::new();
    wire::push_be16(&mut payload, protos::MESSAGE_ENCAPSULATED_SSL);
    let _n: usize = mem_buf.read_to(&mut payload);
    assert(payload@ =~= ssl_packet(old(mem_buf).server_stream@).payload);
    Packet { channel: 0, flags: FRAME_TYPE_FULL, final_length: None, payload }
}

/// What one side's TLS engine wrote reaches the other side's engine unchanged: the
/// packet that carries it is well formed as long as it fits a frame, and holds
/// that data behind the number of the message.
pub proof fn law_ssl_data_arrives(data: Seq<u8>)
    ensures
        ssl_packet(data).message_id() == protos::MESSAGE_ENCAPSULATED_SSL,
        ssl_packet(data).payload.skip(2) == data,
        data.len() + 2 <= 0xFFFF ==> ssl_packet(data).well_formed(),
{
    let p = ssl_packet(data);
    wire::law_be16_round_trip(Seq::<u8>::empty(), protos::MESSAGE_ENCAPSULATED_SSL, data);
    assert(p.payload =~= Seq::<u8>::empty() + wire::be16(protos::MESSAGE_ENCAPSULATED_SSL) + data);
    assert(p.payload.skip(2) =~= data);
    assert(3u8 & 3u8 != 1u8) by (bit_vector);
}

/// A read of nothing ends a TCP connection and no other; all other reads give their length.
pub proof fn law_reads_of_nothing(len: usize)
    ensures
        read_result(InputKind::Tcp, 0) is Err,
        len > 0 ==> read_result(InputKind::Tcp, len) == Ok::<usize, ReadError>(len),
        read_result(InputKind::Usb, len) == Ok::<usize, ReadError>(len),
        read_result(InputKind::Endpoint, len) == Ok::<usize, ReadError>(len),
{
}

/// A plain packet is never refused by an engine; an encrypted one is exactly where the engine
/// failed.
pub proof fn law_engines_refuse_encrypted_packets_only(flags: u8, ok: bool)
    ensures
        flags & 8 == 0 || ok ==> sealing_result(flags, ok) is Ok && opening_result(flags, ok) is Ok,
        flags & 8 != 0 && !ok ==> sealing_result(flags, ok) == Err::<(), EngineError>(
            EngineError::Write,
        ) && opening_result(flags, ok) == Err::<(), EngineError>(EngineError::Read),
{
}

/// A buffer is in the memory that it was made in, the first one, too, and stays in it when
/// others are made; in an empty memory there is none.
pub proof fn law_buffers_stay_in_memory(
    mem: Seq<SslStreamsView>,
    buf: SslMemBuf,
    other: SslStreamsView,
)
    ensures
        buf.place() == mem.len() ==> !buf.is_in(mem) && buf.is_in(mem.push(other)),
        buf.is_in(mem) ==> buf.is_in(mem.push(other)),
        !buf.is_in(Seq::empty()),
{
}

} // verus!
