//! The services that take pictures and sound, and the one that gives input.
use vstd::prelude::*;

use crate::aa_services;
use crate::aa_services::{
    make_open_request, make_reply, pick_setup_codec, saw_command, saw_config_ready, saw_opened,
    AAService, Action, AudioConfig, AudioStreamingParams, MediaCodec, ProjectionStatus,
    ServerState, ServiceType, VideoStreamingParams,
};
use crate::channel_manager;
use crate::channel_manager::{Packet, PacketView};
use crate::messages;
use crate::messages::{AudioFocusState, Incoming, Outgoing, VideoFocusMode};
use crate::protos;
use crate::scrcpy::ScrcpySize;

verus! {

// ---------------------------------------------------------------------------
// Video focus.

/// How far the projection of the screen has come.
#[derive(Clone, Copy, Debug, PartialEq, Eq, Structural)]
pub struct Projection {
    pub state: ProjectionStatus,
    pub video_focus: bool,
    pub session_id: i32,
}

/// What a change of the video focus means for the projection.
#[derive(Clone, Copy, Debug, PartialEq, Eq, Structural)]
pub enum FocusChange {
    Begin,
    Resume,
    Pause,
    Nothing,
}

/// Whether the head unit shows the projected screen.
pub open spec fn shows_projection(focus: VideoFocusMode) -> bool {
    focus == VideoFocusMode::Projected || focus == VideoFocusMode::ProjectedNoInputFocus
}

impl Projection {
    /// What follows when the head unit reports the focus.
    pub open spec fn change(self, focus: VideoFocusMode) -> FocusChange {
        if shows_projection(focus) {
            match self.state {
                ProjectionStatus::TransitionToProjected => FocusChange::Begin,
                ProjectionStatus::ProjectedPause => FocusChange::Resume,
                _ => FocusChange::Nothing,
            }
        } else {
            match self.state {
                ProjectionStatus::ProjectedRecording => FocusChange::Pause,
                _ => FocusChange::Nothing,
            }
        }
    }

    /// Whether the report opens a new session.
    pub open spec fn opens_session(self, focus: VideoFocusMode) -> bool {
        self.change(focus) == FocusChange::Begin || self.change(focus) == FocusChange::Resume
    }

    /// The projection after the head unit has reported the focus.
    pub open spec fn after(self, focus: VideoFocusMode) -> Projection {
        Projection {
            state: match self.change(focus) {
                FocusChange::Begin => ProjectionStatus::ProjectedRecording,
                FocusChange::Resume => ProjectionStatus::ProjectedRecording,
                FocusChange::Pause => ProjectionStatus::ProjectedPause,
                FocusChange::Nothing => self.state,
            },
            video_focus: shows_projection(focus),
            session_id: if self.opens_session(focus) {
                (self.session_id + 1) as i32
            } else {
                self.session_id
            },
        }
    }

    pub fn new() -> (r: Self)
        ensures
            r == (Projection {
                state: ProjectionStatus::TransitionToProjected,
                video_focus: false,
                session_id: 0,
            }),
    {
        Projection {
            state: ProjectionStatus::TransitionToProjected,
            video_focus: false,
            session_id: 0,
        }
    }

    /// Follows the video focus that the head unit reports.
    pub fn notice(&mut self, focus: VideoFocusMode) -> (change: FocusChange)
        requires
            old(self).opens_session(focus) ==> old(self).session_id < i32::MAX,
        ensures
            change == old(self).change(focus),
            *final(self) == old(self).after(focus),
    {
        if focus == VideoFocusMode::Projected || focus == VideoFocusMode::ProjectedNoInputFocus {
            self.video_focus = true;
            match self.state {
                ProjectionStatus::TransitionToProjected => {
                    self.session_id = self.session_id + 1;
                    self.state = ProjectionStatus::ProjectedRecording;
                    FocusChange::Begin
                },
                ProjectionStatus::ProjectedPause => {
                    self.session_id = self.session_id + 1;
                    self.state = ProjectionStatus::ProjectedRecording;
                    FocusChange::Resume
                },
                _ => FocusChange::Nothing,
            }
        } else {
            self.video_focus = false;
            match self.state {
                ProjectionStatus::ProjectedRecording => {
                    self.state = ProjectionStatus::ProjectedPause;
                    FocusChange::Pause
                },
                _ => FocusChange::Nothing,
            }
        }
    }
}

/// The focus that a packet reports, where it does.
pub open spec fn reported_focus(pkt: PacketView, msg: Incoming) -> Option<VideoFocusMode> {
    if pkt.message_id() != protos::MEDIA_MESSAGE_VIDEO_FOCUS_NOTIFICATION {
        None
    } else {
        match msg {
            Incoming::VideoFocusNotification { focus } => Some(focus),
            _ => None,
        }
    }
}

pub(crate) fn saw_focus(pkt: &Packet, msg: &Incoming) -> (r: Option<VideoFocusMode>)
    requires
        pkt.payload@.len() >= 2,
    ensures
        r == reported_focus(pkt@, *msg),
{
    if pkt.message_id() != protos::MEDIA_MESSAGE_VIDEO_FOCUS_NOTIFICATION {
        return None;
    }
    match msg {
        Incoming::VideoFocusNotification { focus } => Some(*focus),
        _ => None,
    }
}

/// Losing the focus and getting it back leads to recording again, in a session of
/// the next number; what came between lets the recorder pause once.
pub proof fn law_focus_returns(p: Projection, lost: VideoFocusMode, gained: VideoFocusMode)
    requires
        p.state == ProjectionStatus::ProjectedRecording,
        p.session_id < i32::MAX,
        !shows_projection(lost),
        shows_projection(gained),
    ensures
        p.change(lost) == FocusChange::Pause,
        p.after(lost).change(lost) == FocusChange::Nothing,
        p.after(lost).change(gained) == FocusChange::Resume,
        p.after(lost).after(gained) == (Projection {
            state: ProjectionStatus::ProjectedRecording,
            video_focus: true,
            session_id: (p.session_id + 1) as i32,
        }),
        p.after(lost).after(gained).change(gained) == FocusChange::Nothing,
{
}

/// A report that repeats the last one changes nothing.
pub proof fn law_focus_repeats_change_nothing(p: Projection, focus: VideoFocusMode)
    ensures
        p.after(focus).change(focus) == FocusChange::Nothing,
        p.after(focus).after(focus) == p.after(focus),
{
}

// ---------------------------------------------------------------------------
// Video sink.

/// The service that shows the screen of the mobile device.
#[derive(Clone, Copy, Debug, PartialEq, Eq, Structural)]
pub struct SrvMediaSinkVideoStreaming {
    pub base: AAService,
    pub projection: Projection,
    pub video_params: VideoStreamingParams,
    pub ignore_ack: bool,
    pub enabled: bool,
    pub config_recived: bool,
    pub video_streaming_started: bool,
    pub scrcpy_server: ServerState,
}

/// The setup message of the video channel.
pub open spec fn video_setup_message() -> Outgoing {
    Outgoing::Setup { codec: Some(MediaCodec::VIDEO_H264_BP) }
}

/// The message that starts a session.
pub open spec fn start_message(session_id: i32) -> Outgoing {
    Outgoing::Start { session_id, configuration_index: 0 }
}

/// Where the recording server runs, it is told to pause or to go on.
pub open spec fn pause_actions(server: ServerState, paused: bool) -> Seq<Action> {
    if server == ServerState::Running {
        seq![Action::SetPaused { paused }]
    } else {
        seq![]
    }
}

impl SrvMediaSinkVideoStreaming {
    /// Frames flow only while the screen is being projected.
    pub open spec fn well_formed(self) -> bool {
        self.video_streaming_started ==> self.projection.state
            == ProjectionStatus::ProjectedRecording
    }

    /// The service after a packet.
    pub open spec fn after(self, pkt: PacketView, msg: Incoming) -> Self {
        if aa_services::is_command(pkt, protos::MD_DISCONNECTED) {
            SrvMediaSinkVideoStreaming { video_streaming_started: false, ..self }
        } else if aa_services::is_command(pkt, protos::CMD_START_VIDEO_RECORDING) {
            SrvMediaSinkVideoStreaming {
                scrcpy_server: if self.scrcpy_server == ServerState::Created {
                    ServerState::Running
                } else {
                    ServerState::Missing
                },
                ..self
            }
        } else if aa_services::config_ready(pkt, msg) {
            SrvMediaSinkVideoStreaming {
                config_recived: true,
                video_params: VideoStreamingParams {
                    max_unack: if self.ignore_ack {
                        0
                    } else {
                        aa_services::max_unacked(msg)
                    },
                    ..self.video_params
                },
                ..self
            }
        } else {
            match reported_focus(pkt, msg) {
                Some(focus) => SrvMediaSinkVideoStreaming {
                    projection: self.projection.after(focus),
                    video_streaming_started: match self.projection.change(focus) {
                        FocusChange::Begin => true,
                        FocusChange::Resume => true,
                        FocusChange::Pause => false,
                        FocusChange::Nothing => self.video_streaming_started,
                    },
                    ..self
                },
                None => self,
            }
        }
    }

    /// What the service does at a packet.
    pub open spec fn actions(self, pkt: PacketView, msg: Incoming) -> Seq<Action> {
        let channel = self.base.sid as u8;
        let setup = aa_services::reply(channel, video_setup_message());
        let stop = aa_services::reply(channel, Outgoing::Stop);
        if aa_services::opened(pkt, msg) {
            if self.enabled {
                seq![setup]
            } else {
                seq![]
            }
        } else if aa_services::is_command(pkt, protos::CMD_OPEN_CH) {
            seq![aa_services::open_request(channel, self.base.sid as i32)]
        } else if aa_services::is_command(pkt, protos::MD_DISCONNECTED) {
            seq![stop, setup]
        } else if aa_services::is_command(pkt, protos::CMD_START_VIDEO_RECORDING) {
            if self.scrcpy_server == ServerState::Created {
                seq![Action::StartServer { max_unack: self.video_params.max_unack as u8 }]
            } else {
                seq![Action::Cancel]
            }
        } else if pkt.message_id() == protos::MEDIA_MESSAGE_ACK {
            if self.video_streaming_started && self.scrcpy_server == ServerState::Running {
                seq![Action::Ack]
            } else {
                seq![]
            }
        } else {
            match reported_focus(pkt, msg) {
                Some(focus) => {
                    let start = aa_services::reply(
                        channel,
                        start_message(self.projection.after(focus).session_id),
                    );
                    match self.projection.change(focus) {
                        FocusChange::Begin => seq![start, Action::NotifyReady],
                        FocusChange::Resume => pause_actions(self.scrcpy_server, false).push(start),
                        FocusChange::Pause => pause_actions(self.scrcpy_server, true).push(stop),
                        FocusChange::Nothing => seq![],
                    }
                },
                None => seq![],
            }
        }
    }

    /// The service before its channel is opened.
    pub open spec fn fresh(
        sid: i8,
        video_params: VideoStreamingParams,
        ignore_ack: bool,
        enabled: bool,
    ) -> Self {
        SrvMediaSinkVideoStreaming {
            base: AAService { sid, srv_type: ServiceType::MediaSink },
            projection: Projection {
                state: ProjectionStatus::TransitionToProjected,
                video_focus: false,
                session_id: 0,
            },
            video_params,
            ignore_ack,
            enabled,
            config_recived: false,
            video_streaming_started: false,
            scrcpy_server: ServerState::Created,
        }
    }

    pub fn new(sid: i8, video_params: VideoStreamingParams, ignore_ack: bool, enabled: bool) -> (r:
        Self)
        ensures
            r.well_formed(),
            r == Self::fresh(sid, video_params, ignore_ack, enabled),
    {
        SrvMediaSinkVideoStreaming {
            base: AAService { sid, srv_type: ServiceType::MediaSink },
            projection: Projection::new(),
            video_params,
            ignore_ack,
            enabled,
            config_recived: false,
            video_streaming_started: false,
            scrcpy_server: ServerState::Created,
        }
    }

    /// Answers a packet on the video channel.
    pub fn handle_message(&mut self, pkt: &Packet, msg: &Incoming) -> (r: Vec<Action>)
        requires
            messages::readable(pkt@),
            reported_focus(pkt@, *msg) matches Some(focus) ==> old(self).projection.opens_session(
                focus,
            ) ==> old(self).projection.session_id < i32::MAX,
        ensures
            r@ == old(self).actions(pkt@, *msg),
            *final(self) == old(self).after(pkt@, *msg),
            old(self).well_formed() ==> final(self).well_formed(),
    {
        let mut r: Vec<Action> = Vec::new();
        let channel: u8 = self.base.sid as u8;
        if saw_opened(pkt, msg) {
            if self.enabled {
                r.push(self.video_setup());
            }
        } else if saw_command(pkt, protos::CMD_OPEN_CH) {
            r.push(make_open_request(channel, self.base.sid as i32));
        } else if saw_command(pkt, protos::MD_DISCONNECTED) {
            self.video_streaming_started = false;
            r.push(make_reply(channel, Outgoing::Stop));
            r.push(self.video_setup());
        } else if saw_command(pkt, protos::CMD_START_VIDEO_RECORDING) {
            if self.scrcpy_server == ServerState::Created {
                self.scrcpy_server = ServerState::Running;
                r.push(Action::StartServer { max_unack: self.video_params.max_unack as u8 });
            } else {
                self.scrcpy_server = ServerState::Missing;
                r.push(Action::Cancel);
            }
        } else if let Some(max_unacked) = saw_config_ready(pkt, msg) {
            self.config_recived = true;
            self.video_params.max_unack = if self.ignore_ack {
                0
            } else {
                max_unacked
            };
        } else if pkt.message_id() == protos::MEDIA_MESSAGE_ACK {
            if self.video_streaming_started && self.scrcpy_server == ServerState::Running {
                r.push(Action::Ack);
            }
        } else if let Some(focus) = saw_focus(pkt, msg) {
            let change = self.projection.notice(focus);
            match change {
                FocusChange::Begin => {
                    r.push(self.start_media());
                    r.push(Action::NotifyReady);
                },
                FocusChange::Resume => {
                    self.pause_scrcpy_media(false, &mut r);
                    r.push(self.start_media());
                },
                FocusChange::Pause => {
                    self.pause_scrcpy_media(true, &mut r);
                    self.video_streaming_started = false;
                    r.push(make_reply(channel, Outgoing::Stop));
                },
                FocusChange::Nothing => {},
            }
        }
        assert(r@ =~= old(self).actions(pkt@, *msg));
        r
    }

    fn video_setup(&self) -> (a: Action)
        ensures
            a == aa_services::reply(self.base.sid as u8, video_setup_message()),
    {
        make_reply(
            self.base.sid as u8,
            Outgoing::Setup { codec: Some(MediaCodec::VIDEO_H264_BP) },
        )
    }

    fn start_media(&mut self) -> (a: Action)
        ensures
            a == aa_services::reply(
                old(self).base.sid as u8,
                start_message(old(self).projection.session_id),
            ),
            *final(self) == (SrvMediaSinkVideoStreaming {
                video_streaming_started: true,
                ..*old(self)
            }),
    {
        self.video_streaming_started = true;
        make_reply(
            self.base.sid as u8,
            Outgoing::Start { session_id: self.projection.session_id, configuration_index: 0 },
        )
    }

    fn pause_scrcpy_media(&self, paused: bool, r: &mut Vec<Action>)
        ensures
            final(r)@ == old(r)@ + pause_actions(self.scrcpy_server, paused),
    {
        if self.scrcpy_server == ServerState::Running {
            r.push(Action::SetPaused { paused });
        }
        assert(r@ =~= old(r)@ + pause_actions(self.scrcpy_server, paused));
    }
}

// ---------------------------------------------------------------------------
// Audio sinks.

/// Whether the head unit lets media be heard.
pub open spec fn grants_media(state: AudioFocusState) -> bool {
    state == AudioFocusState::Gain || state == AudioFocusState::GainTransient || state
        == AudioFocusState::GainMediaOnly
}

/// The audio focus that a packet reports, where it does.
pub open spec fn reported_audio_focus(pkt: PacketView, msg: Incoming) -> Option<AudioFocusState> {
    if pkt.message_id() != protos::MESSAGE_AUDIO_FOCUS_NOTIFICATION {
        None
    } else {
        match msg {
            Incoming::AudioFocusNotification { focus_state } => Some(focus_state),
            _ => None,
        }
    }
}

pub(crate) fn saw_audio_focus(pkt: &Packet, msg: &Incoming) -> (r: Option<AudioFocusState>)
    requires
        pkt.payload@.len() >= 2,
    ensures
        r == reported_audio_focus(pkt@, *msg),
{
    if pkt.message_id() != protos::MESSAGE_AUDIO_FOCUS_NOTIFICATION {
        return None;
    }
    match msg {
        Incoming::AudioFocusNotification { focus_state } => Some(*focus_state),
        _ => None,
    }
}

/// The state of an audio stream.
#[derive(Clone, Copy, Debug, PartialEq, Eq, Structural)]
pub struct AudioPlayback {
    pub audio_stream_paused: bool,
    pub audio_focus: bool,
    pub config_recived: bool,
    pub session_id: i32,
    pub audio_streaming_started: bool,
}

/// Whether sound of that codec can be recorded.
pub open spec fn is_recordable(codec: MediaCodec) -> bool {
    codec == MediaCodec::AUDIO_PCM || codec == MediaCodec::AUDIO_AAC_LC
}

impl AudioPlayback {
    /// Only a stream that was started can be paused.
    pub open spec fn well_formed(self) -> bool {
        self.audio_stream_paused ==> self.audio_streaming_started
    }

    /// The stream before the head unit has opened its channel.
    pub open spec fn initial() -> AudioPlayback {
        AudioPlayback {
            audio_stream_paused: false,
            audio_focus: false,
            config_recived: false,
            session_id: 1,
            audio_streaming_started: false,
        }
    }

    /// A focus report lets a paused stream go on.
    pub open spec fn resumes(self, state: AudioFocusState) -> bool {
        grants_media(state) && self.audio_streaming_started && self.audio_stream_paused
    }

    /// A focus report lets a running stream pause.
    pub open spec fn pauses(self, state: AudioFocusState) -> bool {
        !grants_media(state) && self.audio_streaming_started && !self.audio_stream_paused
    }

    /// The stream after a packet.
    pub open spec fn after(self, codec: MediaCodec, pkt: PacketView, msg: Incoming) -> Self {
        if aa_services::opened(pkt, msg) {
            AudioPlayback { audio_focus: true, ..self }
        } else if aa_services::config_ready(pkt, msg) {
            if is_recordable(codec) {
                AudioPlayback {
                    config_recived: true,
                    session_id: (self.session_id + 1) as i32,
                    audio_streaming_started: true,
                    ..self
                }
            } else {
                AudioPlayback { config_recived: true, ..self }
            }
        } else {
            match reported_audio_focus(pkt, msg) {
                Some(state) => AudioPlayback {
                    audio_focus: grants_media(state),
                    audio_stream_paused: if self.resumes(state) {
                        false
                    } else if self.pauses(state) {
                        true
                    } else {
                        self.audio_stream_paused
                    },
                    ..self
                },
                None => self,
            }
        }
    }

    pub fn new() -> (r: Self)
        ensures
            r == AudioPlayback::initial(),
            r.well_formed(),
    {
        AudioPlayback {
            audio_stream_paused: false,
            audio_focus: false,
            config_recived: false,
            session_id: 1,
            audio_streaming_started: false,
        }
    }

    /// Follows the stream through a packet.
    pub fn notice(&mut self, codec: MediaCodec, pkt: &Packet, msg: &Incoming)
        requires
            messages::readable(pkt@),
            aa_services::config_ready(pkt@, *msg) && is_recordable(codec) ==> old(self).session_id
                < i32::MAX,
        ensures
            *final(self) == old(self).after(codec, pkt@, *msg),
            old(self).well_formed() ==> final(self).well_formed(),
    {
        if saw_opened(pkt, msg) {
            self.audio_focus = true;
        } else if let Some(_) = saw_config_ready(pkt, msg) {
            self.config_recived = true;
            if codec == MediaCodec::AUDIO_PCM || codec == MediaCodec::AUDIO_AAC_LC {
                self.session_id = self.session_id + 1;
                self.audio_streaming_started = true;
            }
        } else if let Some(state) = saw_audio_focus(pkt, msg) {
            let granted: bool = state == AudioFocusState::Gain || state
                == AudioFocusState::GainTransient || state == AudioFocusState::GainMediaOnly;
            self.audio_focus = granted;
            if self.audio_streaming_started {
                self.audio_stream_paused = !granted;
            }
        }
    }
}

/// Losing the audio focus pauses a running stream once, and getting it back lets it
/// go on in the same session.
pub proof fn law_audio_focus_returns(
    p: AudioPlayback,
    codec: MediaCodec,
    lost: (PacketView, Incoming),
    gained: (PacketView, Incoming),
)
    requires
        p.audio_streaming_started,
        !p.audio_stream_paused,
        reported_audio_focus(lost.0, lost.1) matches Some(s) && !grants_media(s),
        reported_audio_focus(gained.0, gained.1) matches Some(s) && grants_media(s),
    ensures
        p.pauses(reported_audio_focus(lost.0, lost.1)->0),
        p.after(codec, lost.0, lost.1).audio_stream_paused,
        !p.after(codec, lost.0, lost.1).pauses(reported_audio_focus(lost.0, lost.1)->0),
        p.after(codec, lost.0, lost.1).resumes(reported_audio_focus(gained.0, gained.1)->0),
        p.after(codec, lost.0, lost.1).after(codec, gained.0, gained.1) == (AudioPlayback {
            audio_focus: true,
            ..p
        }),
{
}

/// The service that plays the sound of the mobile device.
#[derive(Clone, Copy, Debug, PartialEq, Eq, Structural)]
pub struct SrvMediaSinkAudioStreaming {
    pub base: AAService,
    pub acfg: AudioConfig,
    pub audio_params: AudioStreamingParams,
    pub ignore_ack: bool,
    pub enabled: bool,
    pub playback: AudioPlayback,
    pub scrcpy_server: ServerState,
}

impl SrvMediaSinkAudioStreaming {
    /// The service after a packet.
    pub open spec fn after(self, pkt: PacketView, msg: Incoming) -> Self {
        SrvMediaSinkAudioStreaming {
            playback: self.playback.after(self.acfg.codec, pkt, msg),
            scrcpy_server: if aa_services::is_command(pkt, protos::CMD_START_AUDIO_RECORDING) {
                if self.scrcpy_server == ServerState::Created {
                    ServerState::Running
                } else {
                    ServerState::Missing
                }
            } else {
                self.scrcpy_server
            },
            audio_params: AudioStreamingParams {
                max_unack: if !aa_services::config_ready(pkt, msg) {
                    self.audio_params.max_unack
                } else if self.ignore_ack {
                    0
                } else {
                    aa_services::max_unacked(msg)
                },
                ..self.audio_params
            },
            ..self
        }
    }

    /// What the service does at a packet.
    pub open spec fn actions(self, pkt: PacketView, msg: Incoming) -> Seq<Action> {
        let channel = self.base.sid as u8;
        let stop = aa_services::reply(channel, Outgoing::Stop);
        let start = aa_services::reply(
            channel,
            start_message(self.playback.after(self.acfg.codec, pkt, msg).session_id),
        );
        if aa_services::opened(pkt, msg) {
            if self.enabled {
                seq![
                    aa_services::reply(
                        channel,
                        Outgoing::Setup { codec: aa_services::setup_codec(self.acfg.codec) },
                    ),
                ]
            } else {
                seq![]
            }
        } else if aa_services::is_command(pkt, protos::CMD_OPEN_CH) {
            seq![aa_services::open_request(channel, self.base.sid as i32)]
        } else if aa_services::is_command(pkt, protos::MD_DISCONNECTED) {
            seq![stop]
        } else if aa_services::is_command(pkt, protos::CMD_START_AUDIO_RECORDING) {
            if self.scrcpy_server == ServerState::Created {
                seq![Action::StartServer { max_unack: self.audio_params.max_unack as u8 }]
            } else {
                seq![Action::Cancel]
            }
        } else if aa_services::config_ready(pkt, msg) {
            if is_recordable(self.acfg.codec) {
                seq![start, Action::NotifyReady]
            } else {
                seq![]
            }
        } else if pkt.message_id() == protos::MEDIA_MESSAGE_ACK {
            if self.playback.audio_streaming_started && self.scrcpy_server == ServerState::Running {
                seq![Action::Ack]
            } else {
                seq![]
            }
        } else {
            match reported_audio_focus(pkt, msg) {
                Some(state) => if self.playback.resumes(state) {
                    seq![start] + pause_actions(self.scrcpy_server, false)
                } else if self.playback.pauses(state) {
                    seq![stop] + pause_actions(self.scrcpy_server, true)
                } else {
                    seq![]
                },
                None => seq![],
            }
        }
    }

    /// The service before its channel is opened.
    pub open spec fn fresh(
        sid: i8,
        acfg: AudioConfig,
        audio_params: AudioStreamingParams,
        ignore_ack: bool,
        enabled: bool,
    ) -> Self {
        SrvMediaSinkAudioStreaming {
            base: AAService { sid, srv_type: ServiceType::MediaSink },
            acfg,
            audio_params,
            ignore_ack,
            enabled,
            playback: AudioPlayback::initial(),
            scrcpy_server: ServerState::Created,
        }
    }

    pub fn new(
        sid: i8,
        acfg: AudioConfig,
        audio_params: AudioStreamingParams,
        ignore_ack: bool,
        enabled: bool,
    ) -> (r: Self)
        ensures
            r.playback.well_formed(),
            r == Self::fresh(sid, acfg, audio_params, ignore_ack, enabled),
    {
        SrvMediaSinkAudioStreaming {
            base: AAService { sid, srv_type: ServiceType::MediaSink },
            acfg,
            audio_params,
            ignore_ack,
            enabled,
            playback: AudioPlayback::new(),
            scrcpy_server: ServerState::Created,
        }
    }

    /// Answers a packet on the audio channel.
    pub fn handle_message(&mut self, pkt: &Packet, msg: &Incoming) -> (r: Vec<Action>)
        requires
            messages::readable(pkt@),
            aa_services::config_ready(pkt@, *msg) && is_recordable(old(self).acfg.codec) ==> old(
                self,
            ).playback.session_id < i32::MAX,
        ensures
            r@ == old(self).actions(pkt@, *msg),
            *final(self) == old(self).after(pkt@, *msg),
            old(self).playback.well_formed() ==> final(self).playback.well_formed(),
    {
        let mut r: Vec<Action> = Vec::new();
        let channel: u8 = self.base.sid as u8;
        let codec = self.acfg.codec;
        let before = self.playback;
        self.playback.notice(codec, pkt, msg);
        if saw_opened(pkt, msg) {
            if self.enabled {
                r.push(make_reply(channel, Outgoing::Setup { codec: pick_setup_codec(codec) }));
            }
        } else if saw_command(pkt, protos::CMD_OPEN_CH) {
            r.push(make_open_request(channel, self.base.sid as i32));
        } else if saw_command(pkt, protos::MD_DISCONNECTED) {
            r.push(make_reply(channel, Outgoing::Stop));
        } else if saw_command(pkt, protos::CMD_START_AUDIO_RECORDING) {
            if self.scrcpy_server == ServerState::Created {
                self.scrcpy_server = ServerState::Running;
                r.push(Action::StartServer { max_unack: self.audio_params.max_unack as u8 });
            } else {
                self.scrcpy_server = ServerState::Missing;
                r.push(Action::Cancel);
            }
        } else if let Some(max_unacked) = saw_config_ready(pkt, msg) {
            self.audio_params.max_unack = if self.ignore_ack {
                0
            } else {
                max_unacked
            };
            if codec == MediaCodec::AUDIO_PCM || codec == MediaCodec::AUDIO_AAC_LC {
                r.push(self.start_media());
                r.push(Action::NotifyReady);
            }
        } else if pkt.message_id() == protos::MEDIA_MESSAGE_ACK {
            if before.audio_streaming_started && self.scrcpy_server == ServerState::Running {
                r.push(Action::Ack);
            }
        } else if let Some(_) = saw_audio_focus(pkt, msg) {
            if before.audio_stream_paused && !self.playback.audio_stream_paused {
                r.push(self.start_media());
                if self.scrcpy_server == ServerState::Running {
                    r.push(Action::SetPaused { paused: false });
                }
            } else if !before.audio_stream_paused && self.playback.audio_stream_paused {
                r.push(make_reply(channel, Outgoing::Stop));
                if self.scrcpy_server == ServerState::Running {
                    r.push(Action::SetPaused { paused: true });
                }
            }
        }
        assert(r@ =~= old(self).actions(pkt@, *msg));
        r
    }

    fn start_media(&self) -> (a: Action)
        ensures
            a == aa_services::reply(
                self.base.sid as u8,
                start_message(self.playback.session_id),
            ),
    {
        make_reply(
            self.base.sid as u8,
            Outgoing::Start { session_id: self.playback.session_id, configuration_index: 0 },
        )
    }
}

/// The service that would play spoken guidance.
#[derive(Clone, Copy, Debug, PartialEq, Eq, Structural)]
pub struct SrvMediaSinkAudioGuidance {
    pub base: AAService,
    pub acfg: AudioConfig,
    pub enabled: bool,
    pub audio_streaming_started: bool,
}

/// What the guidance service does at a packet.
pub open spec fn guidance_actions(
    channel: u8,
    service_id: i32,
    enabled: bool,
    codec: MediaCodec,
    pkt: PacketView,
    msg: Incoming,
) -> Seq<Action> {
    if aa_services::opened(pkt, msg) && enabled {
        seq![
            aa_services::reply(
                channel,
                Outgoing::Setup { codec: aa_services::setup_codec(codec) },
            ),
        ]
    } else if aa_services::is_command(pkt, protos::CMD_OPEN_CH) {
        seq![aa_services::open_request(channel, service_id)]
    } else {
        seq![]
    }
}

/// Whether guidance has been started after a packet.
pub open spec fn guidance_started(
    started: bool,
    codec: MediaCodec,
    pkt: PacketView,
    msg: Incoming,
) -> bool {
    started || (aa_services::config_ready(pkt, msg) && codec == MediaCodec::AUDIO_PCM)
}

/// Answers a packet on the guidance channel.
pub fn guidance_step(
    channel: u8,
    service_id: i32,
    enabled: bool,
    codec: MediaCodec,
    started: &mut bool,
    pkt: &Packet,
    msg: &Incoming,
) -> (r: Vec<Action>)
    requires
        messages::readable(pkt@),
    ensures
        r@ == guidance_actions(channel, service_id, enabled, codec, pkt@, *msg),
        *final(started) == guidance_started(*old(started), codec, pkt@, *msg),
{
    let mut r: Vec<Action> = Vec::new();
    if saw_opened(pkt, msg) {
        if enabled {
            r.push(make_reply(channel, Outgoing::Setup { codec: pick_setup_codec(codec) }));
        }
    } else if saw_command(pkt, protos::CMD_OPEN_CH) {
        r.push(make_open_request(channel, service_id));
    } else if let Some(_) = saw_config_ready(pkt, msg) {
        if codec == MediaCodec::AUDIO_PCM {
            *started = true;
        }
    }
    assert(r@ =~= guidance_actions(channel, service_id, enabled, codec, pkt@, *msg));
    r
}

impl SrvMediaSinkAudioGuidance {
    pub fn new(sid: i8, acfg: AudioConfig, enabled: bool) -> (r: Self)
        ensures
            r == (SrvMediaSinkAudioGuidance {
                base: AAService { sid, srv_type: ServiceType::SensorSource },
                acfg,
                enabled,
                audio_streaming_started: false,
            }),
    {
        SrvMediaSinkAudioGuidance {
            base: AAService { sid, srv_type: ServiceType::SensorSource },
            acfg,
            enabled,
            audio_streaming_started: false,
        }
    }

    pub fn handle_message(&mut self, pkt: &Packet, msg: &Incoming) -> (r: Vec<Action>)
        requires
            messages::readable(pkt@),
        ensures
            r@ == guidance_actions(
                old(self).base.sid as u8,
                old(self).base.sid as i32,
                old(self).enabled,
                old(self).acfg.codec,
                pkt@,
                *msg,
            ),
            *final(self) == (SrvMediaSinkAudioGuidance {
                audio_streaming_started: guidance_started(
                    old(self).audio_streaming_started,
                    old(self).acfg.codec,
                    pkt@,
                    *msg,
                ),
                ..*old(self)
            }),
    {
        guidance_step(
            self.base.sid as u8,
            self.base.sid as i32,
            self.enabled,
            self.acfg.codec,
            &mut self.audio_streaming_started,
            pkt,
            msg,
        )
    }
}

// ---------------------------------------------------------------------------
// Input source.

/// The service that hands the head unit's input to the mobile device.
#[derive(Debug)]
pub struct SrvInputSource {
    pub base: AAService,
    pub keys: Vec<i32>,
    pub screen_size: ScrcpySize,
    pub cfg_screen_off: bool,
    pub scrcpy_server: ServerState,
}

/// Whether the head unit has bound the keys.
pub open spec fn keys_bound(pkt: PacketView, msg: Incoming) -> bool {
    pkt.message_id() == protos::INPUT_MESSAGE_KEY_BINDING_RESPONSE && msg
        == Incoming::KeyBindingResponse
}

/// The control server of the input service after a packet: starting it uses it up,
/// and so does reporting that it can be started.
pub open spec fn input_server(server: ServerState, pkt: PacketView, msg: Incoming) -> ServerState {
    if aa_services::is_command(pkt, protos::CMD_START_CONTROL_SERVER) {
        if server == ServerState::Created {
            ServerState::Running
        } else {
            ServerState::Missing
        }
    } else if keys_bound(pkt, msg) {
        ServerState::Missing
    } else {
        server
    }
}

/// What the input service does at a packet.
pub open spec fn input_actions(
    channel: u8,
    service_id: i32,
    server: ServerState,
    pkt: PacketView,
    msg: Incoming,
) -> Seq<Action> {
    if aa_services::opened(pkt, msg) {
        seq![aa_services::reply(channel, Outgoing::KeyBindingRequest)]
    } else if aa_services::is_command(pkt, protos::CMD_OPEN_CH) {
        seq![aa_services::open_request(channel, service_id)]
    } else if aa_services::is_command(pkt, protos::CMD_START_CONTROL_SERVER) {
        if server == ServerState::Created {
            seq![Action::StartControlServer]
        } else {
            seq![Action::Cancel]
        }
    } else if pkt.message_id() == protos::INPUT_MESSAGE_INPUT_REPORT && server
        == ServerState::Running {
        seq![Action::ForwardInput]
    } else if keys_bound(pkt, msg) && server == ServerState::Created {
        seq![Action::NotifyReady]
    } else {
        seq![]
    }
}

impl SrvInputSource {
    pub fn new(sid: i8, keys: Vec<i32>, screen_size: ScrcpySize, cfg_screen_off: bool) -> (r: Self)
        ensures
            r == (SrvInputSource {
                base: AAService { sid, srv_type: ServiceType::InputSource },
                keys,
                screen_size,
                cfg_screen_off,
                scrcpy_server: ServerState::Created,
            }),
    {
        SrvInputSource {
            base: AAService { sid, srv_type: ServiceType::InputSource },
            keys,
            screen_size,
            cfg_screen_off,
            scrcpy_server: ServerState::Created,
        }
    }

    /// The key codes that the binding request names: those of the head unit.
    pub fn binding_keys(&self) -> (r: &Vec<i32>)
        ensures
            r@ == self.keys@,
    {
        &self.keys
    }

    /// Answers a packet on the input channel.
    pub fn handle_message(&mut self, pkt: &Packet, msg: &Incoming) -> (r: Vec<Action>)
        requires
            messages::readable(pkt@),
        ensures
            r@ == input_actions(
                old(self).base.sid as u8,
                old(self).base.sid as i32,
                old(self).scrcpy_server,
                pkt@,
                *msg,
            ),
            *final(self) == (SrvInputSource {
                scrcpy_server: input_server(old(self).scrcpy_server, pkt@, *msg),
                ..*old(self)
            }),
    {
        let mut r: Vec<Action> = Vec::new();
        let channel: u8 = self.base.sid as u8;
        let id: u16 = pkt.message_id();
        if saw_opened(pkt, msg) {
            r.push(make_reply(channel, Outgoing::KeyBindingRequest));
        } else if saw_command(pkt, protos::CMD_OPEN_CH) {
            r.push(make_open_request(channel, self.base.sid as i32));
        } else if saw_command(pkt, protos::CMD_START_CONTROL_SERVER) {
            if self.scrcpy_server == ServerState::Created {
                self.scrcpy_server = ServerState::Running;
                r.push(Action::StartControlServer);
            } else {
                self.scrcpy_server = ServerState::Missing;
                r.push(Action::Cancel);
            }
        } else if id == protos::INPUT_MESSAGE_INPUT_REPORT {
            if self.scrcpy_server == ServerState::Running {
                r.push(Action::ForwardInput);
            }
        } else if id == protos::INPUT_MESSAGE_KEY_BINDING_RESPONSE {
            if let Incoming::KeyBindingResponse = msg {
                if self.scrcpy_server == ServerState::Created {
                    r.push(Action::NotifyReady);
                }
                self.scrcpy_server = ServerState::Missing;
            }
        }
        assert(r@ =~= input_actions(
            old(self).base.sid as u8,
            old(self).base.sid as i32,
            old(self).scrcpy_server,
            pkt@,
            *msg,
        ));
        r
    }
}

// ---------------------------------------------------------------------------
// What all services have in common.

/// Whether all messages to the head unit go to that channel, encrypted and in one frame.
pub open spec fn keeps_channel(actions: Seq<Action>, channel: u8) -> bool {
    forall|i: int|
        0 <= i < actions.len() ==> (#[trigger] actions[i] matches Action::Send {
            channel: c,
            flags,
            ..
        } ==> c == channel && channel_manager::is_encrypted(flags)
            && !channel_manager::opens_message(flags))
}

proof fn lemma_service_flags()
    ensures
        channel_manager::is_encrypted(channel_manager::ENCRYPTED_FULL),
        channel_manager::is_encrypted(channel_manager::ENCRYPTED_FULL_CONTROL),
        !channel_manager::opens_message(channel_manager::ENCRYPTED_FULL),
        !channel_manager::opens_message(channel_manager::ENCRYPTED_FULL_CONTROL),
{
    assert(11u8 & 8u8 != 0 && 15u8 & 8u8 != 0 && 11u8 & 3u8 == 3u8 && 15u8 & 3u8 == 3u8)
        by (bit_vector);
}

/// A service talks to the head unit on its own channel only, and always encrypted.
pub proof fn law_services_keep_their_channels(
    video: SrvMediaSinkVideoStreaming,
    audio: SrvMediaSinkAudioStreaming,
    sensors: Seq<aa_services::SensorType>,
    night: bool,
    enabled: bool,
    codec: MediaCodec,
    server: ServerState,
    sid: i8,
    pkt: PacketView,
    msg: Incoming,
)
    ensures
        keeps_channel(video.actions(pkt, msg), video.base.sid as u8),
        keeps_channel(audio.actions(pkt, msg), audio.base.sid as u8),
        keeps_channel(
            aa_services::sensor_actions(sid as u8, sid as i32, sensors, night, pkt, msg),
            sid as u8,
        ),
        keeps_channel(
            guidance_actions(sid as u8, sid as i32, enabled, codec, pkt, msg),
            sid as u8,
        ),
        keeps_channel(input_actions(sid as u8, sid as i32, server, pkt, msg), sid as u8),
        keeps_channel(aa_services::plain_actions(sid as u8, sid as i32, pkt), sid as u8),
{
    lemma_service_flags();
}

} // verus!
