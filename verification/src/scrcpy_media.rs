//! The media stream of the screen copy server: its headers and frames, and the
//! packets that carry them to the head unit.
use vstd::prelude::*;

use crate::buffers;
use crate::buffers::{
    buffer_slice, clear_buffer, extend_buffer, new_buffer_for, reserve_buffer, share, shared_slice,
};
use crate::channel_manager;
use crate::channel_manager::{Packet, PacketView, ENCRYPTED_FULL};
use crate::h264_reader::joined;
use crate::protos;
use crate::text;
use crate::wire;

verus! {

/// Length of the header in front of every frame.
pub const SCRCPY_METADATA_HEADER_LEN: usize = 12;

/// Length of the name of a codec.
pub const CODEC_INFO_LEN: usize = 4;

/// Length of the description of a video session.
pub const SESSION_INFO_LEN: usize = 12;

/// The most that one read asks for.
pub const READ_LEN: usize = 65536;

/// The memory that a reader starts with.
pub const READER_CAPACITY: usize = 262144;

/// The first fragment of an encrypted message.
pub const ENCRYPTED_FIRST: u8 = 9;

/// The last fragment of an encrypted message.
pub const ENCRYPTED_LAST: u8 = 10;

#[derive(Debug)]
pub struct ScrcpyVideoCodecInfo {
    pub codec_id: String,
}

#[derive(Clone, Copy, Debug, PartialEq, Eq, Structural)]
pub struct ScrcpySessionMeta {
    pub flags: u32,
    pub width: u32,
    pub height: u32,
}

#[derive(Clone, Copy, Debug, PartialEq, Eq, Structural)]
pub struct ScrcpyMediaHeader {
    pub size: usize,
    pub timestamp: u64,
    pub config: bool,
    pub keyframe: bool,
}

/// The header in the first twelve bytes: the lower 62 bits of the first number are the
/// time stamp, bit 62 marks the codec's configuration, bit 61 a key frame; the second
/// number is the length of the frame.
pub open spec fn header_of(s: Seq<u8>) -> ScrcpyMediaHeader {
    let pts = wire::be64_at(s, 0);
    ScrcpyMediaHeader {
        size: wire::be32_at(s, 8) as usize,
        timestamp: (pts % 0x4000_0000_0000_0000) as u64,
        config: pts / 0x4000_0000_0000_0000 % 2 == 1,
        keyframe: pts / 0x2000_0000_0000_0000 % 2 == 1,
    }
}

/// Reads the header in front of a frame.
pub fn parse_header(buf: &[u8]) -> (r: ScrcpyMediaHeader)
    requires
        buf@.len() >= SCRCPY_METADATA_HEADER_LEN,
    ensures
        r == header_of(buf@),
{
    let pts: u64 = wire::read_be64(buf, 0);
    let size: usize = wire::read_be32(buf, 8) as usize;
    assert(pts & 0x3FFF_FFFF_FFFF_FFFFu64 == pts % 0x4000_0000_0000_0000u64) by (bit_vector);
    assert((pts & 0x4000_0000_0000_0000u64 != 0) == (pts / 0x4000_0000_0000_0000u64 % 2 == 1))
        by (bit_vector);
    assert((pts & 0x2000_0000_0000_0000u64 != 0) == (pts / 0x2000_0000_0000_0000u64 % 2 == 1))
        by (bit_vector);
    ScrcpyMediaHeader {
        size,
        timestamp: pts & 0x3FFF_FFFF_FFFF_FFFF,
        config: (pts & 0x4000_0000_0000_0000) != 0,
        keyframe: (pts & 0x2000_0000_0000_0000) != 0,
    }
}

// ---------------------------------------------------------------------------
// Names of codecs.

/// The text that `String::from_utf8_lossy` reads from bytes.
pub uninterp spec fn utf8_lossy(bytes: Seq<u8>) -> Seq<char>;

/// `String::from_utf8_lossy`: the text that the bytes encode, with a replacement
/// character where they encode none. Bytes that are valid UTF-8 are decoded as such;
/// how many replacement characters stand for other bytes is left to the name.
#[verifier::external_body]
fn decode_lossy(bytes: &[u8]) -> (r: String)
    ensures
        r@ == utf8_lossy(bytes@),
        vstd::utf8::valid_utf8(bytes@) ==> r@ == vstd::utf8::decode_utf8(bytes@),
{
    String::from_utf8_lossy(bytes).to_string()
}

/// Whether a character is visible ASCII or a space.
pub open spec fn is_printable(c: char) -> bool {
    0x20 <= c as u32 <= 0x7E
}

/// The visible ASCII characters and spaces of a text.
pub open spec fn printable(s: Seq<char>) -> Seq<char>
    decreases s.len(),
{
    if s.len() == 0 {
        seq![]
    } else {
        let before = printable(s.drop_last());
        if is_printable(s.last()) {
            before.push(s.last())
        } else {
            before
        }
    }
}

/// Keeps the visible ASCII characters and spaces.
pub fn keep_printable(s: &[char]) -> (r: String)
    ensures
        r@ == printable(s@),
{
    let mut r = String::new();
    let mut i: usize = 0;
    assert(r@ =~= printable(s@.take(0)));
    while i < s.len()
        invariant
            i <= s@.len(),
            r@ == printable(s@.take(i as int)),
        decreases s@.len() - i,
    {
        assert(s@.take(i + 1).drop_last() =~= s@.take(i as int));
        let n: u32 = s[i] as u32;
        if 0x20 <= n && n <= 0x7E {
            r.push(s[i]);
        }
        i = i + 1;
    }
    assert(s@.take(i as int) =~= s@);
    r
}

/// The name of a codec, from the bytes that announce it.
fn codec_name(bytes: &[u8]) -> (r: String)
    ensures
        r@ == printable(utf8_lossy(bytes@)),
        vstd::utf8::valid_utf8(bytes@) ==> r@ == printable(vstd::utf8::decode_utf8(bytes@)),
{
    let decoded = decode_lossy(bytes);
    let chars = text::chars_of(decoded.as_str());
    keep_printable(chars.as_slice())
}

// ---------------------------------------------------------------------------
// Chunks.

/// The data in pieces of `max` bytes; the last one may be shorter.
pub open spec fn chunked(data: Seq<u8>, max: nat) -> Seq<Seq<u8>>
    decreases data.len(),
{
    if data.len() == 0 || max == 0 {
        seq![]
    } else if data.len() <= max {
        seq![data]
    } else {
        seq![data.take(max as int)] + chunked(data.skip(max as int), max)
    }
}

/// Cutting into chunks keeps every byte in its place; no chunk is empty or longer than
/// allowed, and there are no more of them than needed.
pub proof fn law_chunks(data: Seq<u8>, max: nat)
    requires
        max > 0,
    ensures
        joined(chunked(data, max)) == data,
        forall|i: int|
            0 <= i < chunked(data, max).len() ==> 0 < (#[trigger] chunked(data, max)[i]).len()
                <= max,
        forall|i: int|
            0 <= i < chunked(data, max).len() - 1 ==> (#[trigger] chunked(data, max)[i]).len()
                == max,
        chunked(data, max).len() == (data.len() + max - 1) / max as int,
    decreases data.len(),
{
    let chunks = chunked(data, max);
    if data.len() == 0 {
        assert((max - 1) / max as int == 0) by (nonlinear_arith)
            requires
                max > 0,
        ;
    } else if data.len() <= max {
        assert(chunks.skip(1) =~= Seq::<Seq<u8>>::empty());
        assert(joined(Seq::<Seq<u8>>::empty()) =~= Seq::<u8>::empty());
        assert(joined(chunks) =~= data);
        let n = data.len();
        assert((n + max - 1) / max as int == 1) by (nonlinear_arith)
            requires
                0 < n <= max,
        ;
    } else {
        let rest = data.skip(max as int);
        law_chunks(rest, max);
        let tail = chunked(rest, max);
        assert(chunks.skip(1) =~= tail);
        assert(joined(chunks) =~= data);
        assert forall|i: int| 0 <= i < chunks.len() implies 0 < (#[trigger] chunks[i]).len()
            <= max by {
            if i > 0 {
                assert(chunks[i] == tail[i - 1]);
            }
        }
        assert forall|i: int| 0 <= i < chunks.len() - 1 implies (#[trigger] chunks[i]).len()
            == max by {
            if i > 0 {
                assert(chunks[i] == tail[i - 1]);
            }
        }
        let n = data.len();
        let m = rest.len();
        assert((n + max - 1) / max as int == 1 + (m + max - 1) / max as int) by (nonlinear_arith)
            requires
                max > 0,
                n == m + max,
        ;
    }
}

// ---------------------------------------------------------------------------
// Reading.

#[derive(Clone, Copy, Debug, PartialEq, Eq, Structural)]
pub enum MediaReadError {
    /// The stream ended before everything was there.
    UnexpectedEof,
}

/// How much the next read asks for where that many bytes are missing.
pub open spec fn next_read(missing: int) -> int {
    if missing <= READ_LEN {
        missing
    } else {
        READ_LEN as int
    }
}

/// What a read means: of nothing, that the stream has ended.
pub open spec fn stream_result(bytes: Seq<u8>) -> Result<(), MediaReadError> {
    if bytes.len() == 0 {
        Err(MediaReadError::UnexpectedEof)
    } else {
        Ok(())
    }
}

/// The description of a session, as its bytes hold it.
pub open spec fn session_of(data: Seq<u8>) -> ScrcpySessionMeta {
    ScrcpySessionMeta {
        flags: wire::be32_at(data, 0),
        width: wire::be32_at(data, 4),
        height: wire::be32_at(data, 8),
    }
}

/// Gathers the parts of the media stream from reads of any length.
pub struct ScrcpyMediaReader {
    buf: bytes::BytesMut,
    wanted: usize,
}

impl ScrcpyMediaReader {
    /// What has been read of the current part.
    pub closed spec fn data(self) -> Seq<u8> {
        buffers::buffered(self.buf)
    }

    /// The length of the current part.
    pub closed spec fn wanted(self) -> usize {
        self.wanted
    }

    /// No more has been read than was asked for, and that fits into memory.
    pub open spec fn well_formed(self) -> bool {
        self.data().len() <= self.wanted() <= isize::MAX
    }

    /// Whether the current part is there.
    pub open spec fn is_complete(self) -> bool {
        self.data().len() == self.wanted()
    }

    pub fn new() -> (r: Self)
        ensures
            r.well_formed(),
            r.data() == Seq::<u8>::empty(),
            r.wanted() == 0,
    {
        ScrcpyMediaReader { buf: new_buffer_for(READER_CAPACITY), wanted: 0 }
    }

    /// Begins to read a part of `size` bytes.
    pub fn read_exact_into_buf(&mut self, size: usize)
        requires
            size <= isize::MAX,
        ensures
            final(self).well_formed(),
            final(self).data() == Seq::<u8>::empty(),
            final(self).wanted() == size,
    {
        clear_buffer(&mut self.buf);
        reserve_buffer(&mut self.buf, size);
        self.wanted = size;
    }

    /// How much the next read should ask for; zero once the part is there.
    pub fn to_read(&self) -> (n: usize)
        requires
            self.well_formed(),
        ensures
            n == next_read(self.wanted() - self.data().len()),
            n == 0 <==> self.is_complete(),
    {
        let left: usize = self.wanted - buffer_slice(&self.buf).len();
        if left <= READ_LEN {
            left
        } else {
            READ_LEN
        }
    }

    /// Takes what a read gave. A read of nothing means that the stream has ended.
    pub fn received(&mut self, bytes: &[u8]) -> (r: Result<(), MediaReadError>)
        requires
            old(self).well_formed(),
            bytes@.len() <= old(self).wanted() - old(self).data().len(),
        ensures
            final(self).well_formed(),
            r == stream_result(bytes@),
            final(self).data() == old(self).data() + bytes@,
            final(self).wanted() == old(self).wanted(),
    {
        if bytes.len() == 0 {
            assert(self.data() + bytes@ =~= self.data());
            return Err(MediaReadError::UnexpectedEof);
        }
        extend_buffer(&mut self.buf, bytes);
        Ok(())
    }

    /// The header, once it has been read.
    pub fn header(&self) -> (r: ScrcpyMediaHeader)
        requires
            self.data().len() >= SCRCPY_METADATA_HEADER_LEN,
        ensures
            r == header_of(self.data()),
    {
        parse_header(buffer_slice(&self.buf))
    }

    /// The frame, once it has been read, in chunks of at most `max_data_len` bytes.
    pub fn read_chunks(&self, max_data_len: usize) -> (chunks: Vec<bytes::Bytes>)
        requires
            max_data_len > 0,
        ensures
            buffers::shared_all(chunks@) == chunked(self.data(), max_data_len as nat),
    {
        let data = buffer_slice(&self.buf);
        let size: usize = data.len();
        let mut chunks: Vec<bytes::Bytes> = Vec::new();
        let mut offset: usize = 0;
        assert(data@.skip(0) =~= data@);
        assert(buffers::shared_all(chunks@) + chunked(data@, max_data_len as nat) =~= chunked(
            data@,
            max_data_len as nat,
        ));
        while offset < size
            invariant
                max_data_len > 0,
                size == data@.len(),
                offset <= size,
                chunked(data@, max_data_len as nat) == buffers::shared_all(chunks@) + chunked(
                    data@.skip(offset as int),
                    max_data_len as nat,
                ),
            decreases size - offset,
        {
            let ghost rest = data@.skip(offset as int);
            let ghost before = buffers::shared_all(chunks@);
            let end: usize = if size - offset <= max_data_len {
                size
            } else {
                offset + max_data_len
            };
            let chunk = share(wire::copy_range(data, offset, end));
            assert(buffers::shared(chunk) =~= rest.take(end - offset));
            chunks.push(chunk);
            assert(buffers::shared_all(chunks@) =~= before.push(rest.take(end - offset)));
            assert(data@.skip(end as int) =~= rest.skip(end - offset));
            assert(rest.take(rest.len() as int) =~= rest);
            offset = end;
            assert(before + chunked(rest, max_data_len as nat) =~= buffers::shared_all(chunks@)
                + chunked(data@.skip(offset as int), max_data_len as nat));
        }
        assert(chunked(data@.skip(offset as int), max_data_len as nat) =~= Seq::<
            Seq<u8>,
        >::empty());
        assert(buffers::shared_all(chunks@) =~= chunked(data@, max_data_len as nat));
        chunks
    }

    /// The name of the video codec, once it has been read.
    pub fn read_video_codec_info(&self) -> (r: ScrcpyVideoCodecInfo)
        requires
            self.data().len() >= CODEC_INFO_LEN,
        ensures
            r.codec_id@ == printable(utf8_lossy(self.data().take(4))),
            vstd::utf8::valid_utf8(self.data().take(4)) ==> r.codec_id@ == printable(
                vstd::utf8::decode_utf8(self.data().take(4)),
            ),
    {
        let data = buffer_slice(&self.buf);
        assert(data@.subrange(0, 4) =~= data@.take(4));
        ScrcpyVideoCodecInfo {
            codec_id: codec_name(vstd::slice::slice_subrange(data, 0, CODEC_INFO_LEN)),
        }
    }

    /// The name of the audio codec, once it has been read.
    pub fn read_audio_codec_info(&self) -> (r: String)
        requires
            self.data().len() >= CODEC_INFO_LEN,
        ensures
            r@ == printable(utf8_lossy(self.data().take(4))),
            vstd::utf8::valid_utf8(self.data().take(4)) ==> r@ == printable(
                vstd::utf8::decode_utf8(self.data().take(4)),
            ),
    {
        let data = buffer_slice(&self.buf);
        assert(data@.subrange(0, 4) =~= data@.take(4));
        codec_name(vstd::slice::slice_subrange(data, 0, CODEC_INFO_LEN))
    }

    /// The description of the video session, once it has been read.
    pub fn read_video_session_info(&self) -> (r: ScrcpySessionMeta)
        requires
            self.data().len() >= SESSION_INFO_LEN,
        ensures
            r == session_of(self.data()),
    {
        let data = buffer_slice(&self.buf);
        ScrcpySessionMeta {
            flags: wire::read_be32(data, 0),
            width: wire::read_be32(data, 4),
            height: wire::read_be32(data, 8),
        }
    }
}

// ---------------------------------------------------------------------------
// Packets.

/// What stands in front of a frame in its message: the number of the message and, for
/// all but the codec's configuration, the time stamp.
pub open spec fn media_prefix(header: ScrcpyMediaHeader) -> Seq<u8> {
    if header.config {
        wire::be16(protos::MEDIA_MESSAGE_CODEC_CONFIG)
    } else {
        wire::be16(protos::MEDIA_MESSAGE_DATA) + wire::be64(header.timestamp)
    }
}

/// The packet of one chunk of a frame.
pub open spec fn media_packet(
    sid: u8,
    header: ScrcpyMediaHeader,
    chunks: Seq<Seq<u8>>,
    i: int,
) -> PacketView {
    PacketView {
        channel: sid,
        flags: if chunks.len() == 1 {
            ENCRYPTED_FULL
        } else if i == 0 {
            ENCRYPTED_FIRST
        } else if i == chunks.len() - 1 {
            ENCRYPTED_LAST
        } else {
            channel_manager::ENCRYPTED
        },
        final_length: if chunks.len() > 1 && i == 0 {
            Some((header.size + media_prefix(header).len()) as u32)
        } else {
            None
        },
        payload: if i == 0 {
            media_prefix(header) + chunks[0]
        } else {
            chunks[i]
        },
    }
}

/// The packets of a frame.
pub open spec fn media_packets(
    sid: u8,
    header: ScrcpyMediaHeader,
    chunks: Seq<Seq<u8>>,
) -> Seq<PacketView> {
    Seq::new(chunks.len(), |i: int| media_packet(sid, header, chunks, i))
}

/// The payloads of packets.
pub open spec fn payloads(packets: Seq<PacketView>) -> Seq<Seq<u8>> {
    packets.map_values(|p: PacketView| p.payload)
}

proof fn lemma_joined_first(a: Seq<Seq<u8>>, b: Seq<Seq<u8>>, prefix: Seq<u8>)
    requires
        a.len() == b.len(),
        a.len() > 0,
        b[0] == prefix + a[0],
        forall|i: int| 0 < i < a.len() ==> a[i] == b[i],
    ensures
        joined(b) == prefix + joined(a),
{
    assert(a.skip(1) =~= b.skip(1));
    assert(joined(b) =~= prefix + joined(a));
}

/// The packets of a frame carry, one after the other, what stands in front of the
/// frame and the frame itself. Exactly the first of several is marked as such and
/// announces the length of all, exactly the last is marked as last; a single one is
/// marked as both. All of them are encrypted and can be transferred.
pub proof fn law_media_packets(sid: u8, header: ScrcpyMediaHeader, data: Seq<u8>, max: nat)
    requires
        0 < max,
        max + 10 <= 0xFFFF,
        data.len() > 0,
        header.size == data.len(),
        data.len() + 10 <= u32::MAX,
    ensures
        joined(payloads(media_packets(sid, header, chunked(data, max)))) == media_prefix(header)
            + data,
        forall|i: int|
            0 <= i < chunked(data, max).len() ==> {
                let p = #[trigger] media_packets(sid, header, chunked(data, max))[i];
                &&& p.channel == sid
                &&& p.well_formed()
                &&& channel_manager::is_encrypted(p.flags)
                &&& (p.flags & channel_manager::FRAME_TYPE_FIRST != 0) == (i == 0)
                &&& (p.flags & channel_manager::FRAME_TYPE_LAST != 0) == (i == chunked(
                    data,
                    max,
                ).len() - 1)
                &&& p.final_length == if i == 0 && chunked(data, max).len() > 1 {
                    Some((media_prefix(header) + data).len() as u32)
                } else {
                    None
                }
            },
{
    let chunks = chunked(data, max);
    let packets = media_packets(sid, header, chunks);
    law_chunks(data, max);
    assert(chunks.len() > 0);
    lemma_joined_first(chunks, payloads(packets), media_prefix(header));
    assert(11u8 & 8u8 != 0 && 9u8 & 8u8 != 0 && 10u8 & 8u8 != 0 && 8u8 & 8u8 != 0 && 11u8 & 3u8
        == 3u8 && 9u8 & 3u8 == 1u8 && 10u8 & 3u8 == 2u8 && 8u8 & 3u8 == 0u8 && 11u8 & 1u8 != 0
        && 9u8 & 1u8 != 0 && 10u8 & 1u8 == 0 && 8u8 & 1u8 == 0 && 11u8 & 2u8 != 0 && 9u8 & 2u8 == 0
        && 10u8 & 2u8 != 0 && 8u8 & 2u8 == 0) by (bit_vector);
    assert forall|i: int| 0 <= i < chunks.len() implies {
        let p = #[trigger] packets[i];
        &&& p.channel == sid
        &&& p.well_formed()
        &&& channel_manager::is_encrypted(p.flags)
        &&& (p.flags & channel_manager::FRAME_TYPE_FIRST != 0) == (i == 0)
        &&& (p.flags & channel_manager::FRAME_TYPE_LAST != 0) == (i == chunks.len() - 1)
        &&& p.final_length == if i == 0 && chunks.len() > 1 {
            Some((media_prefix(header) + data).len() as u32)
        } else {
            None
        }
    } by {
        assert(packets[i] == media_packet(sid, header, chunks, i));
        assert(chunks[i].len() <= max);
    }
}

/// Makes the packets of a frame.
pub fn make_packets(sid: u8, header: &ScrcpyMediaHeader, chunks: &Vec<bytes::Bytes>) -> (r: Vec<
    Packet,
>)
    requires
        header.size + 10 <= usize::MAX,
    ensures
        channel_manager::packet_views(r@) == media_packets(
            sid,
            *header,
            buffers::shared_all(chunks@),
        ),
{
    let ghost views = buffers::shared_all(chunks@);
    let mut r: Vec<Packet> = Vec::new();
    let mut i: usize = 0;
    while i < chunks.len()
        invariant
            i <= chunks@.len(),
            header.size + 10 <= usize::MAX,
            views == buffers::shared_all(chunks@),
            r@.len() == i,
            forall|k: int|
                0 <= k < i ==> (#[trigger] r@[k])@ == media_packet(sid, *header, views, k),
        decreases chunks@.len() - i,
    {
        let mut payload: Vec<u8> = Vec::new();
        if i == 0 {
            if header.config {
                wire::push_be16(&mut payload, protos::MEDIA_MESSAGE_CODEC_CONFIG);
            } else {
                wire::push_be16(&mut payload, protos::MEDIA_MESSAGE_DATA);
                wire::push_be64(&mut payload, header.timestamp);
            }
            assert(payload@ =~= media_prefix(*header));
        }
        let prefix_len: usize = payload.len();
        payload.extend_from_slice(shared_slice(&chunks[i]));
        assert(views[i as int] == buffers::shared(chunks@[i as int]));
        let several: bool = chunks.len() > 1;
        let flags: u8 = if !several {
            ENCRYPTED_FULL
        } else if i == 0 {
            ENCRYPTED_FIRST
        } else if i == chunks.len() - 1 {
            ENCRYPTED_LAST
        } else {
            channel_manager::ENCRYPTED
        };
        let final_length: Option<u32> = if several && i == 0 {
            Some((header.size + prefix_len) as u32)
        } else {
            None
        };
        let pkt = Packet { channel: sid, flags, final_length, payload };
        assert(pkt@.payload =~= media_packet(sid, *header, views, i as int).payload);
        r.push(pkt);
        i = i + 1;
    }
    assert(channel_manager::packet_views(r@) =~= media_packets(sid, *header, views));
    r
}

// ---------------------------------------------------------------------------
// Servers.

/// How many frames may be on their way without an acknowledgement.
#[derive(Clone, Copy, Debug, PartialEq, Eq, Structural)]
pub struct AckWindow {
    pub capacity: usize,
    pub outstanding: usize,
}

impl AckWindow {
    /// There is room for a frame, and no more frames are on their way than allowed.
    pub open spec fn well_formed(self) -> bool {
        self.capacity >= 1 && self.outstanding <= self.capacity
    }

    /// A window with room for that many frames, one at least.
    pub open spec fn fresh(max_unack: u8) -> AckWindow {
        AckWindow {
            capacity: if max_unack >= 1 {
                max_unack as usize
            } else {
                1
            },
            outstanding: 0,
        }
    }

    /// Whether another frame may go.
    pub open spec fn has_room(self) -> bool {
        self.outstanding < self.capacity
    }

    /// The window with a place taken, where there is one.
    pub open spec fn taken(self) -> AckWindow {
        AckWindow {
            outstanding: (self.outstanding + if self.has_room() {
                1int
            } else {
                0
            }) as usize,
            ..self
        }
    }

    /// The window with a place freed, where one is taken.
    pub open spec fn released(self) -> AckWindow {
        AckWindow {
            outstanding: if self.outstanding > 0 {
                (self.outstanding - 1) as usize
            } else {
                0
            },
            ..self
        }
    }

    pub fn new(max_unack: u8) -> (r: Self)
        ensures
            r.well_formed(),
            r == AckWindow::fresh(max_unack),
    {
        AckWindow {
            capacity: if max_unack >= 1 {
                max_unack as usize
            } else {
                1
            },
            outstanding: 0,
        }
    }

    /// Takes a place for a frame, where there is one.
    pub fn take_slot(&mut self) -> (taken: bool)
        requires
            old(self).well_formed(),
        ensures
            final(self).well_formed(),
            taken == old(self).has_room(),
            *final(self) == old(self).taken(),
    {
        if self.outstanding < self.capacity {
            self.outstanding = self.outstanding + 1;
            true
        } else {
            false
        }
    }

    /// Frees a place, where one is taken.
    pub fn release(&mut self)
        ensures
            old(self).well_formed() ==> final(self).well_formed(),
            *final(self) == old(self).released(),
    {
        if self.outstanding > 0 {
            self.outstanding = self.outstanding - 1;
        }
    }
}

/// What to do with a frame.
#[derive(Clone, Copy, Debug, PartialEq, Eq, Structural)]
pub enum FrameStep {
    /// Drop it.
    Skip,
    /// Wait for an acknowledgement and try again.
    AwaitAck,
    /// Send its packets.
    Send,
}

/// Whether a media server goes on.
#[derive(Clone, Copy, Debug, PartialEq, Eq, Structural)]
pub enum ServerStep {
    Continue,
    /// End the server.
    Stop,
    /// End the server and the session.
    CancelAndStop,
}

/// What steers the frames of a running media server.
#[derive(Clone, Copy, Debug, PartialEq, Eq, Structural)]
pub struct MediaFlow {
    pub ignore_ack: bool,
    pub window: AckWindow,
    pub paused: bool,
}

impl MediaFlow {
    /// What a frame with this header meets.
    pub open spec fn frame_step(self, header: ScrcpyMediaHeader) -> FrameStep {
        if self.paused || header.size == 0 {
            FrameStep::Skip
        } else if header.config || self.ignore_ack {
            FrameStep::Send
        } else if self.window.outstanding < self.window.capacity {
            FrameStep::Send
        } else {
            FrameStep::AwaitAck
        }
    }

    /// The flow after a frame was sent.
    pub open spec fn sent(self, header: ScrcpyMediaHeader) -> MediaFlow {
        if header.config || self.ignore_ack {
            self
        } else {
            MediaFlow {
                window: AckWindow {
                    outstanding: (self.window.outstanding + 1) as usize,
                    ..self.window
                },
                ..self
            }
        }
    }

    /// The flow after an acknowledgement.
    pub open spec fn acknowledged(self) -> MediaFlow {
        MediaFlow { window: self.window.released(), ..self }
    }

    /// The flow with the recording paused or going on.
    pub open spec fn with_paused(self, paused: bool) -> MediaFlow {
        MediaFlow { paused, ..self }
    }

    /// The flow after a frame was looked at.
    pub open spec fn after_frame(self, header: ScrcpyMediaHeader) -> MediaFlow {
        if self.frame_step(header) == FrameStep::Send {
            self.sent(header)
        } else {
            self
        }
    }

    /// A flow that has just begun.
    pub open spec fn fresh(max_unack: u8) -> MediaFlow {
        MediaFlow {
            ignore_ack: max_unack == 0,
            window: AckWindow::fresh(max_unack),
            paused: false,
        }
    }

    fn new(max_unack: u8) -> (r: Self)
        ensures
            r == MediaFlow::fresh(max_unack),
            r.window.well_formed(),
    {
        MediaFlow { ignore_ack: max_unack == 0, window: AckWindow::new(max_unack), paused: false }
    }

    /// Decides on a frame. A frame that is sent takes a place in the window, unless it
    /// is the codec's configuration or acknowledgements do not count.
    pub fn on_frame(&mut self, header: &ScrcpyMediaHeader) -> (step: FrameStep)
        requires
            old(self).window.well_formed(),
        ensures
            final(self).window.well_formed(),
            step == old(self).frame_step(*header),
            *final(self) == old(self).after_frame(*header),
    {
        if self.paused || header.size == 0 {
            FrameStep::Skip
        } else if header.config || self.ignore_ack {
            FrameStep::Send
        } else if self.window.take_slot() {
            FrameStep::Send
        } else {
            FrameStep::AwaitAck
        }
    }
}

/// With `max_unack` acknowledgements outstanding no further frame is sent, and one
/// acknowledgement lets exactly one further frame go.
pub proof fn law_unacknowledged_frames_are_bounded(flow: MediaFlow, header: ScrcpyMediaHeader)
    requires
        flow.window.well_formed(),
        !flow.ignore_ack,
        !flow.paused,
        !header.config,
        header.size > 0,
        flow.window.outstanding == flow.window.capacity,
    ensures
        flow.frame_step(header) == FrameStep::AwaitAck,
        ({
            let acked = MediaFlow {
                window: AckWindow {
                    outstanding: (flow.window.outstanding - 1) as usize,
                    ..flow.window
                },
                ..flow
            };
            acked.frame_step(header) == FrameStep::Send && acked.sent(header) == flow
        }),
{
}

/// What a codec means for the recorder of the screen; `None` where it could not be read.
pub open spec fn video_codec_step(codec_id: Option<Seq<char>>) -> ServerStep {
    match codec_id {
        Some(id) => if id == "h264"@ {
            ServerStep::Continue
        } else {
            ServerStep::Stop
        },
        None => ServerStep::CancelAndStop,
    }
}

/// What a codec means for the recorder of the sound; `None` where it could not be read.
pub open spec fn audio_codec_step(codec_id: Option<Seq<char>>) -> ServerStep {
    match codec_id {
        Some(id) => if id == "raw"@ || id == "aac"@ {
            ServerStep::Continue
        } else {
            ServerStep::CancelAndStop
        },
        None => ServerStep::CancelAndStop,
    }
}

/// What it means whether the description of the session could be read.
pub open spec fn session_step(readable: bool) -> ServerStep {
    if readable {
        ServerStep::Continue
    } else {
        ServerStep::Stop
    }
}

/// The recorder of the screen, before it runs.
#[derive(Clone, Copy, Debug, PartialEq, Eq, Structural)]
pub struct VideoServer {
    pub sid: u8,
}

/// The recorder of the screen, as it runs.
#[derive(Clone, Copy, Debug, PartialEq, Eq, Structural)]
pub struct VideoServerHandle {
    pub flow: MediaFlow,
}

impl VideoServerHandle {
    /// The head unit has acknowledged a frame.
    pub fn ack(&mut self)
        ensures
            old(self).flow.window.well_formed() ==> final(self).flow.window.well_formed(),
            final(self).flow == old(self).flow.acknowledged(),
    {
        self.flow.window.release();
    }

    pub fn set_paused(&mut self, paused: bool)
        ensures
            *final(self) == (VideoServerHandle { flow: old(self).flow.with_paused(paused) }),
    {
        self.flow.paused = paused;
    }
}

impl VideoServer {
    pub fn new(sid: u8) -> (r: Self)
        ensures
            r.sid == sid,
    {
        VideoServer { sid }
    }

    /// Starts the server; without a number of frames to wait for, acknowledgements do
    /// not count.
    pub fn start(&self, max_unack: u8) -> (r: VideoServerHandle)
        ensures
            r.flow == MediaFlow::fresh(max_unack),
            r.flow.window.well_formed(),
    {
        VideoServerHandle { flow: MediaFlow::new(max_unack) }
    }

    /// Looks at the codec; `None` where it could not be read.
    pub fn on_codec_info(&self, info: Option<&ScrcpyVideoCodecInfo>) -> (step: ServerStep)
        ensures
            step == video_codec_step(
                match info {
                    Some(i) => Some(i.codec_id@),
                    None => None,
                },
            ),
    {
        match info {
            Some(i) => if text::same_text(i.codec_id.as_str(), "h264") {
                ServerStep::Continue
            } else {
                ServerStep::Stop
            },
            None => ServerStep::CancelAndStop,
        }
    }

    /// Looks at the description of the session; it only has to be readable.
    pub fn on_session_info(&self, info: Option<&ScrcpySessionMeta>) -> (step: ServerStep)
        ensures
            step == session_step(info is Some),
    {
        if info.is_some() {
            ServerStep::Continue
        } else {
            ServerStep::Stop
        }
    }

    /// The packets of a frame on the channel of this server.
    pub fn packets(&self, header: &ScrcpyMediaHeader, chunks: &Vec<bytes::Bytes>) -> (r: Vec<
        Packet,
    >)
        requires
            header.size + 10 <= usize::MAX,
        ensures
            channel_manager::packet_views(r@) == media_packets(
                self.sid,
                *header,
                buffers::shared_all(chunks@),
            ),
    {
        make_packets(self.sid, header, chunks)
    }
}

/// The recorder of the sound, before it runs.
#[derive(Clone, Copy, Debug, PartialEq, Eq, Structural)]
pub struct AudioServer {
    pub sid: u8,
}

/// The recorder of the sound, as it runs.
#[derive(Clone, Copy, Debug, PartialEq, Eq, Structural)]
pub struct AudioServerHandle {
    pub flow: MediaFlow,
}

impl AudioServerHandle {
    /// The head unit has acknowledged a frame.
    pub fn ack(&mut self)
        ensures
            old(self).flow.window.well_formed() ==> final(self).flow.window.well_formed(),
            final(self).flow == old(self).flow.acknowledged(),
    {
        self.flow.window.release();
    }

    pub fn set_paused(&mut self, paused: bool)
        ensures
            *final(self) == (AudioServerHandle { flow: old(self).flow.with_paused(paused) }),
    {
        self.flow.paused = paused;
    }
}

impl AudioServer {
    pub fn new(sid: u8) -> (r: Self)
        ensures
            r.sid == sid,
    {
        AudioServer { sid }
    }

    /// Starts the server; without a number of frames to wait for, acknowledgements do
    /// not count.
    pub fn start(&self, max_unack: u8) -> (r: AudioServerHandle)
        ensures
            r.flow == MediaFlow::fresh(max_unack),
            r.flow.window.well_formed(),
    {
        AudioServerHandle { flow: MediaFlow::new(max_unack) }
    }

    /// Looks at the codec; `None` where it could not be read.
    pub fn on_codec_info(&self, codec_id: Option<&str>) -> (step: ServerStep)
        ensures
            step == audio_codec_step(
                match codec_id {
                    Some(id) => Some(id@),
                    None => None,
                },
            ),
    {
        match codec_id {
            Some(id) => if text::same_text(id, "raw") || text::same_text(id, "aac") {
                ServerStep::Continue
            } else {
                ServerStep::CancelAndStop
            },
            None => ServerStep::CancelAndStop,
        }
    }

    /// The packets of a frame on the channel of this server.
    pub fn packets(&self, header: &ScrcpyMediaHeader, chunks: &Vec<bytes::Bytes>) -> (r: Vec<
        Packet,
    >)
        requires
            header.size + 10 <= usize::MAX,
        ensures
            channel_manager::packet_views(r@) == media_packets(
                self.sid,
                *header,
                buffers::shared_all(chunks@),
            ),
    {
        make_packets(self.sid, header, chunks)
    }
}

// ---------------------------------------------------------------------------
// What the packets and headers hold, by their bytes.

/// The first packet of a frame. The codec's configuration follows the bytes 00 01 directly.
/// Every other frame, key frame or not, follows the bytes 00 00 and the eight bytes of its
/// time stamp.
pub proof fn law_first_packet_holds_number_and_time(
    sid: u8,
    header: ScrcpyMediaHeader,
    chunks: Seq<Seq<u8>>,
)
    requires
        chunks.len() > 0,
    ensures
        ({
            let payload = media_packets(sid, header, chunks)[0].payload;
            &&& header.config ==> {
                &&& payload.len() == 2 + chunks[0].len()
                &&& payload[0] == 0 && payload[1] == 1
                &&& payload.skip(2) == chunks[0]
            }
            &&& !header.config ==> {
                &&& payload.len() == 10 + chunks[0].len()
                &&& payload[0] == 0 && payload[1] == 0
                &&& wire::be64_at(payload, 2) == header.timestamp
                &&& payload.skip(10) == chunks[0]
            }
        }),
{
    let payload = media_packets(sid, header, chunks)[0].payload;
    if header.config {
        assert(payload.skip(2) =~= chunks[0]);
    } else {
        let head = payload.take(2);
        wire::law_be64_round_trip(head, header.timestamp, chunks[0]);
        assert(payload =~= head + wire::be64(header.timestamp) + chunks[0]);
        assert(payload.skip(10) =~= chunks[0]);
    }
}

/// There is one packet for every chunk, on the channel of the server, and all but the first
/// hold their chunk and nothing else. The flags tell the place: 11 for a single packet, 9 for
/// the first, 10 for the last and 8 for those between. Only the first of several announces a
/// length, that of the frame with the number and the time stamp in front of it.
pub proof fn law_packets_follow_the_chunks(
    sid: u8,
    header: ScrcpyMediaHeader,
    chunks: Seq<Seq<u8>>,
    i: int,
)
    requires
        0 <= i < chunks.len(),
    ensures
        media_packets(sid, header, chunks).len() == chunks.len(),
        ({
            let p = media_packets(sid, header, chunks)[i];
            let n = chunks.len();
            &&& p.channel == sid
            &&& i > 0 ==> p.payload == chunks[i]
            &&& n == 1 ==> p.flags == 11
            &&& n > 1 && i == 0 ==> p.flags == 9
            &&& n > 1 && i == n - 1 ==> p.flags == 10
            &&& 0 < i < n - 1 ==> p.flags == 8
            &&& i > 0 || n == 1 ==> p.final_length is None
            &&& i == 0 && n > 1 && header.config ==> p.final_length == Some(
                (header.size + 2) as u32,
            )
            &&& i == 0 && n > 1 && !header.config ==> p.final_length == Some(
                (header.size + 10) as u32,
            )
        }),
{
}

/// The mark of a key frame and the announced size do not change what the packets hold.
pub proof fn law_key_frames_travel_like_others(
    sid: u8,
    a: ScrcpyMediaHeader,
    b: ScrcpyMediaHeader,
    chunks: Seq<Seq<u8>>,
    i: int,
)
    requires
        a.config == b.config,
        a.timestamp == b.timestamp,
        0 <= i < chunks.len(),
    ensures
        media_packets(sid, a, chunks)[i].payload == media_packets(sid, b, chunks)[i].payload,
        media_packets(sid, a, chunks)[i].flags == media_packets(sid, b, chunks)[i].flags,
        a.size == b.size ==> media_packets(sid, a, chunks)[i] == media_packets(sid, b, chunks)[i],
{
}

/// The header of a frame, by its bytes: bit 6 of the first byte marks the configuration, bit
/// 5 a key frame. The rest of the first byte without these two upper bits and the seven that
/// follow are the time stamp, the last four the length.
pub proof fn law_header_by_its_bytes(s: Seq<u8>)
    requires
        s.len() >= 12,
    ensures
        ({
            let h = header_of(s);
            &&& h.config <==> s[0] / 64 % 2 == 1
            &&& h.keyframe <==> s[0] / 32 % 2 == 1
            &&& h.timestamp == (s[0] % 64) * 0x100_0000_0000_0000 + s[1] * 0x1_0000_0000_0000
                + s[2] * 0x100_0000_0000 + s[3] * 0x1_0000_0000 + s[4] * 0x100_0000 + s[5]
                * 0x1_0000 + s[6] * 0x100 + s[7]
            &&& h.size == s[8] * 0x100_0000 + s[9] * 0x1_0000 + s[10] * 0x100 + s[11]
        }),
{
    wire::law_read_bytes_have_their_weight(s, 0);
    wire::law_read_bytes_have_their_weight(s, 8);
    let top = s[0] as int;
    let rest = s[1] * 0x1_0000_0000_0000 + s[2] * 0x100_0000_0000 + s[3] * 0x1_0000_0000 + s[4]
        * 0x100_0000 + s[5] * 0x1_0000 + s[6] * 0x100 + s[7];
    let pts = wire::be64_at(s, 0) as int;
    assert(pts == top * 0x100_0000_0000_0000 + rest);
    assert(0 <= rest < 0x100_0000_0000_0000);
    assert(pts / 0x4000_0000_0000_0000 == top / 64);
    assert(pts / 0x2000_0000_0000_0000 == top / 32);
    assert(pts % 0x4000_0000_0000_0000 == (top % 64) * 0x100_0000_0000_0000 + rest);
}

/// Which frames are sent. A paused server and an empty frame send nothing, whatever else
/// holds. The codec's configuration goes out at once, and so does everything where
/// acknowledgements do not count. Any other frame needs a free place, which it takes.
pub proof fn law_frames_wait_for_a_place(flow: MediaFlow, header: ScrcpyMediaHeader)
    requires
        flow.window.well_formed(),
    ensures
        flow.paused ==> flow.frame_step(header) == FrameStep::Skip,
        header.size == 0 ==> flow.frame_step(header) == FrameStep::Skip,
        !flow.paused && header.size > 0 && header.config ==> flow.frame_step(header)
            == FrameStep::Send && flow.sent(header) == flow,
        !flow.paused && header.size > 0 && flow.ignore_ack ==> flow.frame_step(header)
            == FrameStep::Send && flow.sent(header) == flow,
        !flow.paused && header.size > 0 && !header.config && !flow.ignore_ack
            && flow.window.outstanding < flow.window.capacity ==> flow.frame_step(header)
            == FrameStep::Send && flow.sent(header).window.outstanding == flow.window.outstanding
            + 1 && flow.sent(header).window.capacity == flow.window.capacity && !flow.sent(
            header,
        ).paused && !flow.sent(header).ignore_ack,
{
}

/// Neither the mark of a key frame nor the time stamp nor the length of a frame decides
/// whether it is sent, as long as it is not empty.
pub proof fn law_frames_are_sent_alike(flow: MediaFlow, a: ScrcpyMediaHeader, b: ScrcpyMediaHeader)
    requires
        a.config == b.config,
        a.size > 0,
        b.size > 0,
    ensures
        flow.frame_step(a) == flow.frame_step(b),
        flow.sent(a) == flow.sent(b),
{
}

/// A fresh flow is not paused and has as many free places as the head unit allows;
/// acknowledgements count unless that is none.
pub proof fn law_fresh_flow(max_unack: u8)
    ensures
        !MediaFlow::fresh(max_unack).paused,
        MediaFlow::fresh(max_unack).window.outstanding == 0,
        MediaFlow::fresh(max_unack).ignore_ack <==> max_unack == 0,
        max_unack > 0 ==> MediaFlow::fresh(max_unack).window.capacity == max_unack,
        MediaFlow::fresh(max_unack).window.well_formed(),
{
}

/// What is kept of a text are exactly its characters from the space to the tilde, in their
/// order: a text is kept piece by piece, one of such characters as it is, and one without
/// them not at all.
pub proof fn law_printable_by_pieces(a: Seq<char>, b: Seq<char>, c: char)
    ensures
        printable(a + b) == printable(a) + printable(b),
        ' ' <= c && c <= '~' ==> printable(seq![c]) == seq![c],
        c < ' ' || c > '~' ==> printable(seq![c]) == Seq::<char>::empty(),
    decreases b.len(),
{
    assert(seq![c].drop_last() =~= Seq::<char>::empty());
    assert(printable(Seq::<char>::empty()) =~= Seq::<char>::empty());
    assert(printable(seq![c]) == if is_printable(c) {
        printable(seq![c].drop_last()).push(c)
    } else {
        printable(seq![c].drop_last())
    });
    if b.len() == 0 {
        assert(a + b =~= a);
        assert(printable(a) + printable(b) =~= printable(a));
    } else {
        law_printable_by_pieces(a, b.drop_last(), c);
        assert((a + b).drop_last() =~= a + b.drop_last());
        assert(printable(a + b) =~= printable(a) + printable(b));
    }
}

/// Places are taken and freed one by one: a window of `n` places takes `n` frames and not one
/// more, freeing undoes taking, and freeing a place that nobody has changes nothing. How many
/// places there are never changes.
pub proof fn law_places_of_a_window(w: AckWindow, max_unack: u8)
    requires
        w.well_formed(),
    ensures
        w.has_room() <==> w.outstanding != w.capacity,
        w.has_room() ==> w.taken().outstanding == w.outstanding + 1 && w.taken().released() == w,
        !w.has_room() ==> w.taken() == w,
        w.outstanding > 0 ==> w.released().outstanding == w.outstanding - 1 && w.released().taken()
            == w && w.released().has_room(),
        w.outstanding == 0 ==> w.released() == w,
        w.taken().capacity == w.capacity && w.released().capacity == w.capacity,
        AckWindow::fresh(max_unack).outstanding == 0,
        max_unack > 0 ==> AckWindow::fresh(max_unack).capacity == max_unack,
        AckWindow::fresh(0).capacity == 1,
{
}

/// An acknowledgement lets a frame go that had to wait, and changes nothing but the window;
/// pausing changes nothing but that no frame is sent, and is undone by going on.
pub proof fn law_acknowledging_and_pausing(flow: MediaFlow, header: ScrcpyMediaHeader, p: bool)
    requires
        flow.window.well_formed(),
    ensures
        flow.frame_step(header) == FrameStep::AwaitAck ==> flow.acknowledged().frame_step(header)
            == FrameStep::Send && flow.acknowledged().after_frame(header) == flow,
        flow.acknowledged().paused == flow.paused && flow.acknowledged().ignore_ack
            == flow.ignore_ack,
        flow.window.outstanding > 0 ==> flow.acknowledged().window.outstanding + 1
            == flow.window.outstanding,
        flow.with_paused(true).frame_step(header) == FrameStep::Skip,
        flow.with_paused(p).window == flow.window && flow.with_paused(p).ignore_ack
            == flow.ignore_ack,
        flow.with_paused(p).with_paused(flow.paused) == flow,
        flow.with_paused(p).paused == p,
        flow.frame_step(header) != FrameStep::Send ==> flow.after_frame(header) == flow,
        flow.frame_step(header) == FrameStep::Send && !header.config && !flow.ignore_ack
            ==> flow.after_frame(header).window.outstanding == flow.window.outstanding + 1,
        header.config || flow.ignore_ack ==> flow.after_frame(header) == flow,
{
}

/// The recorder of the screen takes its one codec and ends at every other; the recorder of the
/// sound takes its two codecs and ends the session at every other, too. A codec that could not
/// be read ends the session at both. A session that could not be read ends the server only.
pub proof fn law_codecs_of_the_recorders(id: Seq<char>)
    ensures
        video_codec_step(Some("h264"@)) == ServerStep::Continue,
        id != "h264"@ ==> video_codec_step(Some(id)) == ServerStep::Stop,
        audio_codec_step(Some("raw"@)) == ServerStep::Continue,
        audio_codec_step(Some("aac"@)) == ServerStep::Continue,
        id != "raw"@ && id != "aac"@ ==> audio_codec_step(Some(id)) == ServerStep::CancelAndStop,
        video_codec_step(None) == ServerStep::CancelAndStop,
        audio_codec_step(None) == ServerStep::CancelAndStop,
        session_step(true) == ServerStep::Continue,
        session_step(false) == ServerStep::Stop,
{
}

/// A read asks for all that is missing, but never for more than 65536 bytes, and for nothing
/// exactly where nothing is missing. Only a read of nothing is the end of the stream.
pub proof fn law_reads_of_a_stream(missing: int, bytes: Seq<u8>)
    requires
        missing >= 0,
    ensures
        next_read(missing) == 0 <==> missing == 0,
        missing <= 65536 ==> next_read(missing) == missing,
        missing >= 65536 ==> next_read(missing) == 65536,
        stream_result(bytes) is Err <==> bytes.len() == 0,
{
}

/// The description of a session holds three numbers of four bytes, most significant first:
/// the flags, the width and the height.
pub proof fn law_session_by_its_bytes(data: Seq<u8>)
    requires
        data.len() >= 12,
    ensures
        session_of(data).flags == data[0] * 0x100_0000 + data[1] * 0x1_0000 + data[2] * 0x100
            + data[3],
        session_of(data).width == data[4] * 0x100_0000 + data[5] * 0x1_0000 + data[6] * 0x100
            + data[7],
        session_of(data).height == data[8] * 0x100_0000 + data[9] * 0x1_0000 + data[10] * 0x100
            + data[11],
{
    wire::law_read_bytes_have_their_weight(data, 0);
    wire::law_read_bytes_have_their_weight(data, 4);
    wire::law_read_bytes_have_their_weight(data, 8);
}

} // verus!
