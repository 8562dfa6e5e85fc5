//! How a media server reads its stream: first what describes it, then frame after frame.
use vstd::prelude::*;

use crate::channel_manager;
use crate::channel_manager::{Packet, PacketView};
use crate::scrcpy_media;
use crate::scrcpy_media::{
    AudioServer, FrameStep, MediaFlow, ScrcpyMediaHeader, ScrcpyMediaReader, ServerStep,
    VideoServer, CODEC_INFO_LEN, SCRCPY_METADATA_HEADER_LEN, SESSION_INFO_LEN,
};

verus! {

/// What a media server records.
#[derive(Clone, Copy, Debug, PartialEq, Eq, Structural)]
pub enum MediaKind {
    Video,
    Audio,
}

/// Which part of the stream is read, or what else the server waits for.
#[derive(Clone, Copy, Debug, PartialEq, Eq, Structural)]
pub enum MediaPhase {
    /// The name of the codec.
    Codec,
    /// The description of the video session.
    Session,
    /// The header in front of a frame.
    Header,
    /// The frame behind that header.
    Frame { header: ScrcpyMediaHeader },
    /// An acknowledgement that lets the frame go.
    Slot { frame: ScrcpyMediaHeader },
    Ended,
}

/// What the server asks for.
#[derive(Debug)]
pub enum MediaAction {
    /// Read until the current part is there.
    Read,
    /// Wait for an acknowledgement.
    AwaitAck,
    /// Send the packets, then read until the current part is there.
    Send { packets: Vec<Packet> },
    /// End the server.
    Stop,
    /// End the server and the session.
    CancelAndStop,
}

/// What the server asks for, with the packets by their views.
#[verifier::ext_equal]
pub enum MediaActionView {
    Read,
    AwaitAck,
    Send { packets: Seq<PacketView> },
    Stop,
    CancelAndStop,
}

impl View for MediaAction {
    type V = MediaActionView;

    open spec fn view(&self) -> MediaActionView {
        match self {
            MediaAction::Read => MediaActionView::Read,
            MediaAction::AwaitAck => MediaActionView::AwaitAck,
            MediaAction::Send { packets } => MediaActionView::Send {
                packets: channel_manager::packet_views(packets@),
            },
            MediaAction::Stop => MediaActionView::Stop,
            MediaAction::CancelAndStop => MediaActionView::CancelAndStop,
        }
    }
}

/// The length of the part that is read in a phase.
pub open spec fn part_size(phase: MediaPhase) -> int {
    match phase {
        MediaPhase::Codec => CODEC_INFO_LEN as int,
        MediaPhase::Session => SESSION_INFO_LEN as int,
        MediaPhase::Header => SCRCPY_METADATA_HEADER_LEN as int,
        MediaPhase::Frame { header } => header.size as int,
        MediaPhase::Slot { frame } => frame.size as int,
        MediaPhase::Ended => 0,
    }
}

/// What is decided when a part is there.
#[verifier::ext_equal]
pub struct Decision {
    pub phase: MediaPhase,
    pub action: MediaActionView,
    pub flow: MediaFlow,
}

/// A server that reads its stream.
#[derive(Clone, Copy, Debug, PartialEq, Eq, Structural)]
pub struct MediaSession {
    pub kind: MediaKind,
    pub sid: u8,
    pub phase: MediaPhase,
}

impl MediaSession {
    /// The reader reads the part of the phase, and that fits into memory.
    pub open spec fn well_formed(self, reader: ScrcpyMediaReader) -> bool {
        &&& reader.well_formed()
        &&& self.phase != MediaPhase::Ended ==> reader.wanted() == part_size(self.phase)
        &&& self.phase is Slot ==> reader.is_complete()
    }

    /// Whether the server takes the codec that the bytes name.
    pub open spec fn takes_codec(self, data: Seq<u8>) -> bool {
        let name = scrcpy_media::printable(scrcpy_media::utf8_lossy(data));
        match self.kind {
            MediaKind::Video => name == "h264"@,
            MediaKind::Audio => name == "raw"@ || name == "aac"@,
        }
    }

    /// The packets of the frame that has been read.
    pub open spec fn frame_packets(
        self,
        header: ScrcpyMediaHeader,
        data: Seq<u8>,
        max: nat,
    ) -> Seq<PacketView> {
        scrcpy_media::media_packets(self.sid, header, scrcpy_media::chunked(data, max))
    }

    /// What follows when the part of the phase is there, or when an acknowledgement may
    /// have come. A frame that waits for one goes out even if the recording was paused
    /// meanwhile.
    pub open spec fn decision(self, data: Seq<u8>, flow: MediaFlow, max: nat) -> Decision {
        let read = |phase: MediaPhase| Decision { phase, action: MediaActionView::Read, flow };
        match self.phase {
            MediaPhase::Codec => if self.takes_codec(data) {
                match self.kind {
                    MediaKind::Video => read(MediaPhase::Session),
                    MediaKind::Audio => read(MediaPhase::Header),
                }
            } else {
                Decision {
                    phase: MediaPhase::Ended,
                    action: match self.kind {
                        MediaKind::Video => MediaActionView::Stop,
                        MediaKind::Audio => MediaActionView::CancelAndStop,
                    },
                    flow,
                }
            },
            MediaPhase::Session => read(MediaPhase::Header),
            MediaPhase::Header => read(
                MediaPhase::Frame { header: scrcpy_media::header_of(data) },
            ),
            MediaPhase::Frame { header } => match flow.frame_step(header) {
                FrameStep::Skip => read(MediaPhase::Header),
                FrameStep::AwaitAck => Decision {
                    phase: MediaPhase::Slot { frame: header },
                    action: MediaActionView::AwaitAck,
                    flow,
                },
                FrameStep::Send => Decision {
                    phase: MediaPhase::Header,
                    action: MediaActionView::Send { packets: self.frame_packets(header, data, max) },
                    flow: flow.sent(header),
                },
            },
            MediaPhase::Slot { frame } => if flow.window.outstanding < flow.window.capacity {
                Decision {
                    phase: MediaPhase::Header,
                    action: MediaActionView::Send { packets: self.frame_packets(frame, data, max) },
                    flow: MediaFlow {
                        window: scrcpy_media::AckWindow {
                            outstanding: (flow.window.outstanding + 1) as usize,
                            ..flow.window
                        },
                        ..flow
                    },
                }
            } else {
                Decision { phase: self.phase, action: MediaActionView::AwaitAck, flow }
            },
            MediaPhase::Ended => Decision { phase: self.phase, action: MediaActionView::Stop, flow },
        }
    }

    /// What follows when the stream cannot be read any further.
    pub open spec fn failure(self) -> ServerStep {
        if self.phase == MediaPhase::Codec {
            ServerStep::CancelAndStop
        } else {
            ServerStep::Stop
        }
    }

    /// Begins to read a stream.
    pub fn begin(kind: MediaKind, sid: u8, reader: &mut ScrcpyMediaReader) -> (r: Self)
        ensures
            r == (MediaSession { kind, sid, phase: MediaPhase::Codec }),
            r.well_formed(*final(reader)),
            final(reader).data() == Seq::<u8>::empty(),
    {
        reader.read_exact_into_buf(CODEC_INFO_LEN);
        MediaSession { kind, sid, phase: MediaPhase::Codec }
    }

    /// Goes on when the part of the phase is there, or when an acknowledgement may have
    /// come.
    pub fn step(
        &mut self,
        reader: &mut ScrcpyMediaReader,
        flow: &mut MediaFlow,
        max_data_len: usize,
    ) -> (action: MediaAction)
        requires
            old(self).well_formed(*old(reader)),
            old(reader).is_complete(),
            old(flow).window.well_formed(),
            max_data_len > 0,
            old(self).phase == MediaPhase::Header ==> scrcpy_media::header_of(
                old(reader).data(),
            ).size <= isize::MAX,
        ensures
            final(self).well_formed(*final(reader)),
            final(flow).window.well_formed(),
            final(self).kind == old(self).kind,
            final(self).sid == old(self).sid,
            (Decision { phase: final(self).phase, action: action@, flow: *final(flow) }) == old(
                self,
            ).decision(old(reader).data(), *old(flow), max_data_len as nat),
            action is Read || action is Send ==> final(reader).data() == Seq::<u8>::empty(),
            action is AwaitAck ==> final(reader).data() == old(reader).data(),
    {
        let ghost data = reader.data();
        match self.phase {
            MediaPhase::Codec => {
                assert(data.take(4) =~= data);
                let step = match self.kind {
                    MediaKind::Video => {
                        let info = reader.read_video_codec_info();
                        VideoServer::new(self.sid).on_codec_info(Some(&info))
                    },
                    MediaKind::Audio => {
                        let name = reader.read_audio_codec_info();
                        AudioServer::new(self.sid).on_codec_info(Some(name.as_str()))
                    },
                };
                match step {
                    ServerStep::Continue => {
                        match self.kind {
                            MediaKind::Video => {
                                self.phase = MediaPhase::Session;
                                reader.read_exact_into_buf(SESSION_INFO_LEN);
                            },
                            MediaKind::Audio => {
                                self.phase = MediaPhase::Header;
                                reader.read_exact_into_buf(SCRCPY_METADATA_HEADER_LEN);
                            },
                        }
                        MediaAction::Read
                    },
                    ServerStep::Stop => {
                        self.phase = MediaPhase::Ended;
                        MediaAction::Stop
                    },
                    ServerStep::CancelAndStop => {
                        self.phase = MediaPhase::Ended;
                        MediaAction::CancelAndStop
                    },
                }
            },
            MediaPhase::Session => {
                self.next_header(reader);
                MediaAction::Read
            },
            MediaPhase::Header => {
                let header = reader.header();
                self.phase = MediaPhase::Frame { header };
                reader.read_exact_into_buf(header.size);
                MediaAction::Read
            },
            MediaPhase::Frame { header } => {
                match flow.on_frame(&header) {
                    FrameStep::Skip => {
                        self.next_header(reader);
                        MediaAction::Read
                    },
                    FrameStep::AwaitAck => {
                        self.phase = MediaPhase::Slot { frame: header };
                        MediaAction::AwaitAck
                    },
                    FrameStep::Send => self.send_frame(&header, reader, max_data_len),
                }
            },
            MediaPhase::Slot { frame } => {
                if flow.window.take_slot() {
                    self.send_frame(&frame, reader, max_data_len)
                } else {
                    MediaAction::AwaitAck
                }
            },
            MediaPhase::Ended => MediaAction::Stop,
        }
    }

    fn next_header(&mut self, reader: &mut ScrcpyMediaReader)
        ensures
            *final(self) == (MediaSession { phase: MediaPhase::Header, ..*old(self) }),
            final(self).well_formed(*final(reader)),
            final(reader).data() == Seq::<u8>::empty(),
    {
        self.phase = MediaPhase::Header;
        reader.read_exact_into_buf(SCRCPY_METADATA_HEADER_LEN);
    }

    fn send_frame(
        &mut self,
        header: &ScrcpyMediaHeader,
        reader: &mut ScrcpyMediaReader,
        max_data_len: usize,
    ) -> (action: MediaAction)
        requires
            header.size <= isize::MAX,
            max_data_len > 0,
        ensures
            *final(self) == (MediaSession { phase: MediaPhase::Header, ..*old(self) }),
            final(self).well_formed(*final(reader)),
            final(reader).data() == Seq::<u8>::empty(),
            action is Send,
            action@ == (MediaActionView::Send {
                packets: old(self).frame_packets(
                    *header,
                    old(reader).data(),
                    max_data_len as nat,
                ),
            }),
    {
        let chunks = reader.read_chunks(max_data_len);
        let packets = scrcpy_media::make_packets(self.sid, header, &chunks);
        self.next_header(reader);
        MediaAction::Send { packets }
    }

    /// Ends the server because the stream could not be read any further. Where not even
    /// the codec could be read, the session ends, too.
    pub fn read_failed(&mut self) -> (step: ServerStep)
        ensures
            step == old(self).failure(),
            *final(self) == (MediaSession { phase: MediaPhase::Ended, ..*old(self) }),
    {
        let step = match self.phase {
            MediaPhase::Codec => match self.kind {
                MediaKind::Video => VideoServer::new(self.sid).on_codec_info(None),
                MediaKind::Audio => AudioServer::new(self.sid).on_codec_info(None),
            },
            MediaPhase::Session => VideoServer::new(self.sid).on_session_info(None),
            _ => ServerStep::Stop,
        };
        self.phase = MediaPhase::Ended;
        step
    }
}

/// No frame is lost or sent twice for want of an acknowledgement: a frame that finds no
/// place waits, and once a place is free exactly its packets are sent, as they would
/// have been at once; then the next header is read.
pub proof fn law_waiting_frame_goes_out(
    s: MediaSession,
    header: ScrcpyMediaHeader,
    data: Seq<u8>,
    flow: MediaFlow,
    paused: bool,
    max: nat,
)
    requires
        s.phase == (MediaPhase::Frame { header }),
        flow.window.well_formed(),
        flow.frame_step(header) == FrameStep::AwaitAck,
    ensures
        ({
            let waiting = s.decision(data, flow, max);
            let acked = MediaFlow {
                window: scrcpy_media::AckWindow {
                    outstanding: (flow.window.outstanding - 1) as usize,
                    ..flow.window
                },
                paused,
                ..flow
            };
            let after = (MediaSession { phase: waiting.phase, ..s }).decision(data, acked, max);
            &&& waiting.action == MediaActionView::AwaitAck
            &&& waiting.flow == flow
            &&& (MediaSession { phase: waiting.phase, ..s }).decision(data, flow, max) == waiting
            &&& after.action == (MediaActionView::Send {
                packets: s.frame_packets(header, data, max),
            })
            &&& after.phase == MediaPhase::Header
            &&& after.flow.window == flow.window
        }),
{
}

/// A stream that breaks off before its codec is known ends the session; later on only the
/// server ends, wherever it stands.
pub proof fn law_broken_streams(s: MediaSession)
    ensures
        s.phase == MediaPhase::Codec ==> s.failure() == ServerStep::CancelAndStop,
        s.phase != MediaPhase::Codec ==> s.failure() == ServerStep::Stop,
{
}

} // verus!
