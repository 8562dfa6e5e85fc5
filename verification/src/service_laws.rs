//! What the services do, told by the bytes of the packets that they get.
use vstd::prelude::*;

use crate::aa_services;
use crate::aa_services::{
    Action, MediaCodec, ProjectionStatus, SensorType, ServerState, VideoStreamingParams,
};
use crate::channel_manager::PacketView;
use crate::media_sinks;
use crate::media_sinks::{
    AudioPlayback, Projection, SrvMediaSinkAudioStreaming, SrvMediaSinkVideoStreaming,
};
use crate::messages;
use crate::messages::{
    AudioFocusState, ConfigStatus, Incoming, MessageStatus, Outgoing, VideoFocusMode,
};
use crate::recorder;
use crate::service_tasks;
use crate::service_tasks::{AudioTask, VideoTask};

verus! {

/// Whether the payload begins with the two bytes.
pub open spec fn begins(p: PacketView, a: u8, b: u8) -> bool {
    p.payload.len() >= 2 && p.payload[0] == a && p.payload[1] == b
}

/// Whether the payload is the command of that number: F0 00, then the number in two bytes.
pub open spec fn is_order(p: PacketView, n: u8) -> bool {
    p.payload.len() >= 4 && begins(p, 0xF0, 0) && p.payload[2] == 0 && p.payload[3] == n
}

/// Whether two packets are the same message or the same command; channel, flags, lengths and
/// what follows may differ.
pub open spec fn alike(p: PacketView, q: PacketView) -> bool {
    &&& messages::readable(p) && messages::readable(q)
    &&& p.payload[0] == q.payload[0] && p.payload[1] == q.payload[1]
    &&& begins(p, 0xF0, 0) ==> p.payload[2] == q.payload[2] && p.payload[3] == q.payload[3]
}

/// The head unit's consent to open a channel.
pub open spec fn consent() -> Incoming {
    Incoming::ChannelOpenResponse { status: MessageStatus::Success }
}

// ---------------------------------------------------------------------------
// All services.

/// What the services do depends on the number of the message or command and on what was
/// decoded, not on channel, flags, lengths or the bytes behind.
pub proof fn law_services_look_at_numbers(
    video: SrvMediaSinkVideoStreaming,
    audio: SrvMediaSinkAudioStreaming,
    sensors: Seq<SensorType>,
    on: bool,
    codec: MediaCodec,
    server: ServerState,
    channel: u8,
    id: i32,
    p: PacketView,
    q: PacketView,
    msg: Incoming,
)
    requires
        alike(p, q),
    ensures
        video.actions(p, msg) == video.actions(q, msg),
        video.after(p, msg) == video.after(q, msg),
        audio.actions(p, msg) == audio.actions(q, msg),
        audio.after(p, msg) == audio.after(q, msg),
        aa_services::sensor_actions(channel, id, sensors, on, p, msg)
            == aa_services::sensor_actions(channel, id, sensors, on, q, msg),
        aa_services::sensor_night(on, p, msg) == aa_services::sensor_night(on, q, msg),
        aa_services::plain_actions(channel, id, p) == aa_services::plain_actions(channel, id, q),
        media_sinks::guidance_actions(channel, id, on, codec, p, msg)
            == media_sinks::guidance_actions(channel, id, on, codec, q, msg),
        media_sinks::guidance_started(on, codec, p, msg) == media_sinks::guidance_started(
            on,
            codec,
            q,
            msg,
        ),
        media_sinks::input_actions(channel, id, server, p, msg) == media_sinks::input_actions(
            channel,
            id,
            server,
            q,
            msg,
        ),
        media_sinks::input_server(server, p, msg) == media_sinks::input_server(server, q, msg),
        service_tasks::input_task_actions(channel, id, p, msg)
            == service_tasks::input_task_actions(channel, id, q, msg),
{
}

/// The same of the tasks that steer a shared recorder.
pub proof fn law_tasks_look_at_numbers(
    video: VideoTask,
    audio: AudioTask,
    codec: MediaCodec,
    enabled: bool,
    channel: u8,
    id: i32,
    p: PacketView,
    q: PacketView,
    msg: Incoming,
)
    requires
        alike(p, q),
    ensures
        video.actions(channel, id, enabled, p, msg) == video.actions(channel, id, enabled, q, msg),
        video.after(p, msg) == video.after(q, msg),
        audio.actions(channel, id, enabled, codec, p, msg) == audio.actions(
            channel,
            id,
            enabled,
            codec,
            q,
            msg,
        ),
        audio.after(codec, p, msg) == audio.after(codec, q, msg),
{
}

/// The command 1 lets every service ask the head unit to open its channel, with its own
/// number, encrypted, in one frame, marked as a control message (flags 15).
pub proof fn law_every_service_opens_its_channel(
    video: SrvMediaSinkVideoStreaming,
    audio: SrvMediaSinkAudioStreaming,
    video_task: VideoTask,
    audio_task: AudioTask,
    sensors: Seq<SensorType>,
    on: bool,
    codec: MediaCodec,
    server: ServerState,
    channel: u8,
    id: i32,
    p: PacketView,
    msg: Incoming,
)
    requires
        is_order(p, 1),
    ensures
        ({
            let open = |c: u8, n: i32|
                seq![
                    Action::Send {
                        channel: c,
                        flags: 15,
                        message: Outgoing::ChannelOpenRequest { priority: 0, service_id: n },
                    },
                ];
            &&& video.actions(p, msg) == open(video.base.sid as u8, video.base.sid as i32)
            &&& audio.actions(p, msg) == open(audio.base.sid as u8, audio.base.sid as i32)
            &&& aa_services::sensor_actions(channel, id, sensors, on, p, msg) == open(channel, id)
            &&& aa_services::plain_actions(channel, id, p) == open(channel, id)
            &&& media_sinks::guidance_actions(channel, id, on, codec, p, msg) == open(channel, id)
            &&& media_sinks::input_actions(channel, id, server, p, msg) == open(channel, id)
            &&& service_tasks::input_task_actions(channel, id, p, msg) == open(channel, id)
            &&& video_task.actions(channel, id, on, p, msg) == open(channel, id)
            &&& audio_task.actions(channel, id, on, codec, p, msg) == open(channel, id)
            &&& video.after(p, msg) == video
            &&& audio.after(p, msg) == audio
            &&& aa_services::sensor_night(on, p, msg) == on
            &&& media_sinks::input_server(server, p, msg) == server
        }),
{
}

/// A service whose channel is only opened does nothing else.
pub proof fn law_plain_services_do_nothing_else(channel: u8, id: i32, p: PacketView)
    requires
        messages::readable(p),
        !is_order(p, 1),
    ensures
        aa_services::plain_actions(channel, id, p).len() == 0,
{
}

// ---------------------------------------------------------------------------
// Sensors.

/// Once its channel is open (00 08), the sensor service asks for night mode every second,
/// exactly where the head unit has that sensor.
pub proof fn law_night_mode_is_asked_for(
    channel: u8,
    id: i32,
    sensors: Seq<SensorType>,
    night: bool,
    p: PacketView,
    msg: Incoming,
)
    requires
        begins(p, 0, 8),
        msg == consent(),
    ensures
        sensors.contains(SensorType::SENSOR_NIGHT_MODE) ==> aa_services::sensor_actions(
            channel,
            id,
            sensors,
            night,
            p,
            msg,
        ) == seq![
            Action::Send {
                channel,
                flags: 11,
                message: Outgoing::SensorRequest {
                    sensor: SensorType::SENSOR_NIGHT_MODE,
                    min_update_period: 1_000_000_000,
                },
            },
        ],
        !sensors.contains(SensorType::SENSOR_NIGHT_MODE) ==> aa_services::sensor_actions(
            channel,
            id,
            sensors,
            night,
            p,
            msg,
        ).len() == 0,
{
}

/// A batch of sensor data (80 03) with samples of night mode sets the theme by the first of
/// them, and the theme is switched exactly where that changes it.
pub proof fn law_theme_follows_the_first_sample(
    channel: u8,
    id: i32,
    sensors: Seq<SensorType>,
    night: bool,
    p: PacketView,
    samples: Vec<Option<bool>>,
)
    requires
        begins(p, 0x80, 3),
    ensures
        ({
            let msg = Incoming::SensorBatch { night_mode_data: samples };
            let after = aa_services::sensor_night(night, p, msg);
            let actions = aa_services::sensor_actions(channel, id, sensors, night, p, msg);
            &&& samples@.len() == 0 ==> after == night
            &&& samples@.len() > 0 && samples@[0] == Some(true) ==> after
            &&& samples@.len() > 0 && samples@[0] != Some(true) ==> !after
            &&& after != night ==> actions == seq![Action::SwitchTheme { night: after }]
            &&& after == night ==> actions.len() == 0
        }),
{
}

/// Other messages neither switch the theme nor change what is known of it.
pub proof fn law_other_messages_leave_the_theme(
    channel: u8,
    id: i32,
    sensors: Seq<SensorType>,
    night: bool,
    p: PacketView,
    msg: Incoming,
)
    requires
        messages::readable(p),
        !begins(p, 0x80, 3) || !(msg is SensorBatch),
    ensures
        aa_services::sensor_night(night, p, msg) == night,
        !is_order(p, 1) && !(begins(p, 0, 8) && msg == consent()) ==> aa_services::sensor_actions(
            channel,
            id,
            sensors,
            night,
            p,
            msg,
        ).len() == 0,
{
}

// ---------------------------------------------------------------------------
// Video.

/// The picture is on in the two modes that show the projection and off in the others.
pub proof fn law_modes_that_show_the_projection(focus: VideoFocusMode)
    ensures
        media_sinks::shows_projection(VideoFocusMode::Projected),
        media_sinks::shows_projection(VideoFocusMode::ProjectedNoInputFocus),
        !media_sinks::shows_projection(VideoFocusMode::Native),
        !media_sinks::shows_projection(VideoFocusMode::NativeTransient),
{
}

/// Once its channel is open, the video service sets up H.264, where it is enabled.
pub proof fn law_video_is_set_up(
    s: SrvMediaSinkVideoStreaming,
    t: VideoTask,
    enabled: bool,
    channel: u8,
    id: i32,
    p: PacketView,
    msg: Incoming,
)
    requires
        begins(p, 0, 8),
        msg == consent(),
    ensures
        ({
            let setup = |c: u8|
                seq![
                    Action::Send {
                        channel: c,
                        flags: 11,
                        message: Outgoing::Setup { codec: Some(MediaCodec::VIDEO_H264_BP) },
                    },
                ];
            &&& s.enabled ==> s.actions(p, msg) == setup(s.base.sid as u8)
            &&& !s.enabled ==> s.actions(p, msg).len() == 0
            &&& enabled ==> t.actions(channel, id, enabled, p, msg) == setup(channel)
            &&& !enabled ==> t.actions(channel, id, enabled, p, msg).len() == 0
            &&& s.after(p, msg) == s
            &&& t.after(p, msg) == t
        }),
{
}

/// A ready configuration (80 03) tells how many frames may go unacknowledged, which is none
/// to be waited for where acknowledgements are ignored. It sends nothing and changes nothing
/// else. One that is not ready changes nothing.
pub proof fn law_video_configuration_sets_the_window(
    s: SrvMediaSinkVideoStreaming,
    t: VideoTask,
    enabled: bool,
    channel: u8,
    id: i32,
    p: PacketView,
    msg: Incoming,
)
    requires
        begins(p, 0x80, 3),
        msg is Config,
    ensures
        ({
            let ready = msg->config_status == ConfigStatus::Ready;
            &&& s.actions(p, msg).len() == 0
            &&& t.actions(channel, id, enabled, p, msg).len() == 0
            &&& ready && s.ignore_ack ==> s.after(p, msg).video_params.max_unack == 0
            &&& ready && !s.ignore_ack ==> s.after(p, msg).video_params.max_unack
                == msg->max_unacked
            &&& ready ==> t.after(p, msg).video_params.max_unack == msg->max_unacked
            &&& ready ==> s.after(p, msg).config_recived && t.after(p, msg).config_recived
            &&& ready ==> s.after(p, msg) == (SrvMediaSinkVideoStreaming {
                config_recived: true,
                video_params: VideoStreamingParams {
                    max_unack: s.after(p, msg).video_params.max_unack,
                    ..s.video_params
                },
                ..s
            })
            &&& ready ==> t.after(p, msg).projection == t.projection
            &&& !ready ==> s.after(p, msg) == s && t.after(p, msg) == t
        }),
{
}

/// The command 3 starts the recording server once, with the window that was agreed; a second
/// start ends the session.
pub proof fn law_video_recording_starts_once(
    s: SrvMediaSinkVideoStreaming,
    p: PacketView,
    msg: Incoming,
)
    requires
        is_order(p, 3),
        s.scrcpy_server == ServerState::Created,
    ensures
        s.actions(p, msg) == seq![
            Action::StartServer { max_unack: s.video_params.max_unack as u8 },
        ],
        s.after(p, msg) == (SrvMediaSinkVideoStreaming { scrcpy_server: ServerState::Running, ..s }),
        s.after(p, msg).actions(p, msg) == seq![Action::Cancel],
        s.after(p, msg).after(p, msg).scrcpy_server == ServerState::Missing,
{
}

/// An acknowledgement (80 04), whatever it holds, goes to the recording server exactly while
/// that runs and frames flow, and changes nothing here.
pub proof fn law_video_acknowledgements_are_passed_on(
    s: SrvMediaSinkVideoStreaming,
    p: PacketView,
    msg: Incoming,
)
    requires
        begins(p, 0x80, 4),
    ensures
        s.video_streaming_started && s.scrcpy_server == ServerState::Running ==> s.actions(p, msg)
            == seq![Action::Ack],
        !(s.video_streaming_started && s.scrcpy_server == ServerState::Running) ==> s.actions(
            p,
            msg,
        ).len() == 0,
        s.after(p, msg) == s,
{
}

/// When the mobile device is lost (command 10), the session is stopped and set up anew, and
/// frames do not flow.
pub proof fn law_lost_device_stops_video(
    s: SrvMediaSinkVideoStreaming,
    t: VideoTask,
    enabled: bool,
    channel: u8,
    id: i32,
    p: PacketView,
    msg: Incoming,
)
    requires
        is_order(p, 10),
    ensures
        ({
            let again = |c: u8|
                seq![
                    Action::Send { channel: c, flags: 11, message: Outgoing::Stop },
                    Action::Send {
                        channel: c,
                        flags: 11,
                        message: Outgoing::Setup { codec: Some(MediaCodec::VIDEO_H264_BP) },
                    },
                ];
            &&& s.actions(p, msg) == again(s.base.sid as u8)
            &&& t.actions(channel, id, enabled, p, msg) == again(channel)
            &&& s.after(p, msg) == (SrvMediaSinkVideoStreaming {
                video_streaming_started: false,
                ..s
            })
            &&& t.after(p, msg) == t
        }),
{
}

/// A focus report (80 08) to the video service. The first that shows the projection starts
/// session 1 and reports that recording can start. One that hides it pauses a running server
/// and stops the session. One that shows it again lets the server go on and starts a session
/// of the next number. Reports that repeat change nothing.
pub proof fn law_video_follows_the_focus(
    s: SrvMediaSinkVideoStreaming,
    p: PacketView,
    msg: Incoming,
)
    requires
        begins(p, 0x80, 8),
        msg is VideoFocusNotification,
        0 <= s.projection.session_id < i32::MAX,
    ensures
        ({
            let focus = msg->focus;
            let shown = focus == VideoFocusMode::Projected || focus
                == VideoFocusMode::ProjectedNoInputFocus;
            let channel = s.base.sid as u8;
            let next = Action::Send {
                channel,
                flags: 11,
                message: Outgoing::Start {
                    session_id: (s.projection.session_id + 1) as i32,
                    configuration_index: 0,
                },
            };
            let stop = Action::Send { channel, flags: 11, message: Outgoing::Stop };
            let runs = s.scrcpy_server == ServerState::Running;
            let state = s.projection.state;
            let after = s.after(p, msg);
            &&& shown && state == ProjectionStatus::TransitionToProjected ==> s.actions(p, msg)
                == seq![next, Action::NotifyReady]
            &&& shown && state == ProjectionStatus::ProjectedPause && runs ==> s.actions(p, msg)
                == seq![Action::SetPaused { paused: false }, next]
            &&& shown && state == ProjectionStatus::ProjectedPause && !runs ==> s.actions(p, msg)
                == seq![next]
            &&& !shown && state == ProjectionStatus::ProjectedRecording && runs ==> s.actions(
                p,
                msg,
            ) == seq![Action::SetPaused { paused: true }, stop]
            &&& !shown && state == ProjectionStatus::ProjectedRecording && !runs ==> s.actions(
                p,
                msg,
            ) == seq![stop]
            &&& shown && (state == ProjectionStatus::TransitionToProjected || state
                == ProjectionStatus::ProjectedPause) ==> after.video_streaming_started
                && after.projection.state == ProjectionStatus::ProjectedRecording
                && after.projection.session_id == s.projection.session_id + 1
            &&& !shown && state == ProjectionStatus::ProjectedRecording
                ==> !after.video_streaming_started && after.projection.state
                == ProjectionStatus::ProjectedPause && after.projection.session_id
                == s.projection.session_id
            &&& shown && state == ProjectionStatus::ProjectedRecording || !shown && state
                != ProjectionStatus::ProjectedRecording ==> s.actions(p, msg).len() == 0
                && after.video_streaming_started == s.video_streaming_started
                && after.projection.state == state && after.projection.session_id
                == s.projection.session_id
            &&& after.projection.video_focus == shown
            &&& after == (SrvMediaSinkVideoStreaming {
                projection: after.projection,
                video_streaming_started: after.video_streaming_started,
                ..s
            })
        }),
{
}

/// Messages of other numbers than these change nothing in the video service and are not
/// answered.
pub proof fn law_other_messages_leave_video(
    s: SrvMediaSinkVideoStreaming,
    t: VideoTask,
    enabled: bool,
    channel: u8,
    id: i32,
    p: PacketView,
    msg: Incoming,
)
    requires
        messages::readable(p),
        !begins(p, 0, 8),
        !begins(p, 0x80, 3),
        !begins(p, 0x80, 4),
        !begins(p, 0x80, 8),
        !is_order(p, 1),
        !is_order(p, 3),
        !is_order(p, 10),
    ensures
        s.actions(p, msg).len() == 0,
        s.after(p, msg) == s,
        t.actions(channel, id, enabled, p, msg).len() == 0,
        t.after(p, msg) == t,
{
}

// ---------------------------------------------------------------------------
// Sound.

/// Media are heard with the focus, for a time or for media only, and not otherwise; PCM and
/// AAC are recorded, no other codec is.
pub proof fn law_states_that_grant_media(state: AudioFocusState, codec: MediaCodec)
    ensures
        media_sinks::grants_media(state) <==> state == AudioFocusState::Gain || state
            == AudioFocusState::GainTransient || state == AudioFocusState::GainMediaOnly,
        media_sinks::is_recordable(codec) <==> codec == MediaCodec::AUDIO_PCM || codec
            == MediaCodec::AUDIO_AAC_LC,
        media_sinks::is_recordable(codec) ==> aa_services::setup_codec(codec) == Some(codec),
        !media_sinks::is_recordable(codec) ==> aa_services::setup_codec(codec) is None,
{
}

/// Once its channel is open, the audio service sets up its codec, where it is enabled.
pub proof fn law_sound_is_set_up(
    s: SrvMediaSinkAudioStreaming,
    t: AudioTask,
    codec: MediaCodec,
    enabled: bool,
    channel: u8,
    id: i32,
    p: PacketView,
    msg: Incoming,
)
    requires
        begins(p, 0, 8),
        msg == consent(),
        s.acfg.codec == codec,
        codec == MediaCodec::AUDIO_PCM || codec == MediaCodec::AUDIO_AAC_LC,
    ensures
        ({
            let setup = |c: u8|
                seq![
                    Action::Send {
                        channel: c,
                        flags: 11,
                        message: Outgoing::Setup { codec: Some(codec) },
                    },
                ];
            &&& s.enabled ==> s.actions(p, msg) == setup(s.base.sid as u8)
            &&& !s.enabled ==> s.actions(p, msg).len() == 0
            &&& enabled ==> t.actions(channel, id, enabled, codec, p, msg) == setup(channel)
            &&& !enabled ==> t.actions(channel, id, enabled, codec, p, msg).len() == 0
            &&& enabled ==> media_sinks::guidance_actions(channel, id, enabled, codec, p, msg)
                == setup(channel)
            &&& !enabled ==> media_sinks::guidance_actions(
                channel,
                id,
                enabled,
                codec,
                p,
                msg,
            ).len() == 0
        }),
{
}

/// A ready configuration (80 03) of a codec that can be recorded starts a session of the next
/// number and reports that recording can start; the task hands the recorder its parameters
/// with the window that was agreed. One that is not ready does nothing.
pub proof fn law_sound_starts_when_ready(
    s: SrvMediaSinkAudioStreaming,
    t: AudioTask,
    codec: MediaCodec,
    enabled: bool,
    channel: u8,
    id: i32,
    p: PacketView,
    msg: Incoming,
)
    requires
        begins(p, 0x80, 3),
        msg is Config,
        s.acfg.codec == codec,
        0 <= s.playback.session_id < i32::MAX,
        0 <= t.playback.session_id < i32::MAX,
    ensures
        ({
            let ready = msg->config_status == ConfigStatus::Ready;
            let heard = codec == MediaCodec::AUDIO_PCM || codec == MediaCodec::AUDIO_AAC_LC;
            let start = |c: u8, n: i32|
                Action::Send {
                    channel: c,
                    flags: 11,
                    message: Outgoing::Start { session_id: n, configuration_index: 0 },
                };
            let sa = s.after(p, msg);
            let ta = t.after(codec, p, msg);
            &&& ready && heard ==> s.actions(p, msg) == seq![
                start(s.base.sid as u8, (s.playback.session_id + 1) as i32),
                Action::NotifyReady,
            ]
            &&& ready && heard ==> t.actions(channel, id, enabled, codec, p, msg) == seq![
                start(channel, (t.playback.session_id + 1) as i32),
                Action::RecordAudio { channel, audio: ta.audio_params },
            ]
            &&& ready && heard ==> sa.playback.session_id == s.playback.session_id + 1
                && sa.playback.audio_streaming_started && ta.playback.session_id
                == t.playback.session_id + 1 && ta.playback.audio_streaming_started
            &&& ready && s.ignore_ack ==> sa.audio_params.max_unack == 0
            &&& ready && !s.ignore_ack ==> sa.audio_params.max_unack == msg->max_unacked
            &&& ready ==> ta.audio_params.max_unack == msg->max_unacked && ta.audio_params.codec
                == t.audio_params.codec && ta.audio_params.bitrate == t.audio_params.bitrate
                && ta.audio_params.sid == t.audio_params.sid
            &&& ready && !heard ==> s.actions(p, msg).len() == 0 && t.actions(
                channel,
                id,
                enabled,
                codec,
                p,
                msg,
            ).len() == 0 && sa.playback.session_id == s.playback.session_id
            &&& !ready ==> s.actions(p, msg).len() == 0 && t.actions(
                channel,
                id,
                enabled,
                codec,
                p,
                msg,
            ).len() == 0 && sa == s && ta == t
        }),
{
}

/// The command 6 starts the recording server of the sound once, with the window that was
/// agreed; a second start ends the session.
pub proof fn law_sound_recording_starts_once(
    s: SrvMediaSinkAudioStreaming,
    p: PacketView,
    msg: Incoming,
)
    requires
        is_order(p, 6),
        s.scrcpy_server == ServerState::Created,
    ensures
        s.actions(p, msg) == seq![
            Action::StartServer { max_unack: s.audio_params.max_unack as u8 },
        ],
        s.after(p, msg) == (SrvMediaSinkAudioStreaming { scrcpy_server: ServerState::Running, ..s }),
        s.after(p, msg).actions(p, msg) == seq![Action::Cancel],
        s.after(p, msg).after(p, msg).scrcpy_server == ServerState::Missing,
{
}

/// An acknowledgement (80 04) goes to the recording server of the sound exactly while that
/// runs and a session was started, and changes nothing here.
pub proof fn law_sound_acknowledgements_are_passed_on(
    s: SrvMediaSinkAudioStreaming,
    p: PacketView,
    msg: Incoming,
)
    requires
        begins(p, 0x80, 4),
    ensures
        s.playback.audio_streaming_started && s.scrcpy_server == ServerState::Running ==> s.actions(
            p,
            msg,
        ) == seq![Action::Ack],
        !(s.playback.audio_streaming_started && s.scrcpy_server == ServerState::Running)
            ==> s.actions(p, msg).len() == 0,
        s.after(p, msg) == s,
{
}

/// A focus report (00 13) to a stream that was started: losing the focus stops the session
/// and lets the recording pause, getting it back starts the session of the same number again
/// and lets the recording go on. Repeated reports and reports to a stream that was not
/// started send nothing.
pub proof fn law_sound_follows_the_focus(
    s: SrvMediaSinkAudioStreaming,
    t: AudioTask,
    codec: MediaCodec,
    enabled: bool,
    channel: u8,
    id: i32,
    p: PacketView,
    msg: Incoming,
)
    requires
        begins(p, 0, 19),
        msg is AudioFocusNotification,
        t.playback == s.playback,
        s.acfg.codec == codec,
    ensures
        ({
            let state = msg->focus_state;
            let heard = state == AudioFocusState::Gain || state == AudioFocusState::GainTransient
                || state == AudioFocusState::GainMediaOnly;
            let started = s.playback.audio_streaming_started;
            let paused = s.playback.audio_stream_paused;
            let runs = s.scrcpy_server == ServerState::Running;
            let start = |c: u8|
                Action::Send {
                    channel: c,
                    flags: 11,
                    message: Outgoing::Start {
                        session_id: s.playback.session_id,
                        configuration_index: 0,
                    },
                };
            let stop = |c: u8| Action::Send { channel: c, flags: 11, message: Outgoing::Stop };
            let sid = s.base.sid as u8;
            let task = t.actions(channel, id, enabled, codec, p, msg);
            &&& started && paused && heard && runs ==> s.actions(p, msg) == seq![
                start(sid),
                Action::SetPaused { paused: false },
            ]
            &&& started && paused && heard && !runs ==> s.actions(p, msg) == seq![start(sid)]
            &&& started && !paused && !heard && runs ==> s.actions(p, msg) == seq![
                stop(sid),
                Action::SetPaused { paused: true },
            ]
            &&& started && !paused && !heard && !runs ==> s.actions(p, msg) == seq![stop(sid)]
            &&& started && paused && heard ==> task == seq![
                start(channel),
                Action::Recorder { channel, command: 8 },
            ]
            &&& started && !paused && !heard ==> task == seq![
                stop(channel),
                Action::Recorder { channel, command: 7 },
            ]
            &&& !started || paused != heard ==> s.actions(p, msg).len() == 0 && task.len() == 0
            &&& s.after(p, msg).playback == (AudioPlayback {
                audio_focus: heard,
                audio_stream_paused: if started {
                    !heard
                } else {
                    paused
                },
                ..s.playback
            })
            &&& s.after(p, msg) == (SrvMediaSinkAudioStreaming {
                playback: s.after(p, msg).playback,
                ..s
            })
            &&& t.after(codec, p, msg) == (AudioTask { playback: s.after(p, msg).playback, ..t })
        }),
{
}

/// When the mobile device is lost (command 10), the session of the sound is stopped.
pub proof fn law_lost_device_stops_sound(
    s: SrvMediaSinkAudioStreaming,
    t: AudioTask,
    codec: MediaCodec,
    enabled: bool,
    channel: u8,
    id: i32,
    p: PacketView,
    msg: Incoming,
)
    requires
        is_order(p, 10),
    ensures
        s.actions(p, msg) == seq![
            Action::Send { channel: s.base.sid as u8, flags: 11, message: Outgoing::Stop },
        ],
        s.after(p, msg) == s,
        t.actions(channel, id, enabled, codec, p, msg) == seq![
            Action::Send { channel, flags: 11, message: Outgoing::Stop },
        ],
        t.after(codec, p, msg) == t,
{
}

/// Messages of other numbers than these change nothing in the audio service and are not
/// answered.
pub proof fn law_other_messages_leave_sound(
    s: SrvMediaSinkAudioStreaming,
    t: AudioTask,
    codec: MediaCodec,
    enabled: bool,
    channel: u8,
    id: i32,
    p: PacketView,
    msg: Incoming,
)
    requires
        messages::readable(p),
        !begins(p, 0, 8),
        !begins(p, 0, 19),
        !begins(p, 0x80, 3),
        !begins(p, 0x80, 4),
        !is_order(p, 1),
        !is_order(p, 6),
        !is_order(p, 10),
    ensures
        s.actions(p, msg).len() == 0,
        s.after(p, msg) == s,
        t.actions(channel, id, enabled, codec, p, msg).len() == 0,
        t.after(codec, p, msg) == t,
{
}

/// Guidance only opens its channel and is set up; it is never played. A ready configuration
/// of PCM marks it as started, for good.
pub proof fn law_guidance_is_only_set_up(
    channel: u8,
    id: i32,
    enabled: bool,
    started: bool,
    codec: MediaCodec,
    p: PacketView,
    msg: Incoming,
)
    requires
        messages::readable(p),
    ensures
        !is_order(p, 1) && !(begins(p, 0, 8) && msg == consent())
            ==> media_sinks::guidance_actions(channel, id, enabled, codec, p, msg).len() == 0,
        started ==> media_sinks::guidance_started(started, codec, p, msg),
        !started ==> (media_sinks::guidance_started(started, codec, p, msg) <==> begins(p, 0x80, 3)
            && codec == MediaCodec::AUDIO_PCM && (msg matches Incoming::Config {
            config_status,
            ..
        } && config_status == ConfigStatus::Ready)),
{
}

// ---------------------------------------------------------------------------
// Input.

/// The input service binds the keys once its channel is open (00 08), reports that it can
/// start when they are bound (80 03), starts the control server on command 9, which a second
/// start ends with the session, and hands reports (80 01) to a control server that runs,
/// whatever they hold.
pub proof fn law_input_service(
    channel: u8,
    id: i32,
    server: ServerState,
    p: PacketView,
    msg: Incoming,
)
    requires
        messages::readable(p),
    ensures
        ({
            let actions = media_sinks::input_actions(channel, id, server, p, msg);
            let after = media_sinks::input_server(server, p, msg);
            let bound = begins(p, 0x80, 3) && msg == Incoming::KeyBindingResponse;
            let asked = begins(p, 0, 8) && msg == consent();
            &&& asked ==> actions == seq![
                Action::Send { channel, flags: 11, message: Outgoing::KeyBindingRequest },
            ]
            &&& bound && server == ServerState::Created ==> actions == seq![Action::NotifyReady]
            &&& bound && server != ServerState::Created ==> actions.len() == 0
            &&& bound ==> after == ServerState::Missing
            &&& is_order(p, 9) && server == ServerState::Created ==> actions == seq![
                Action::StartControlServer,
            ] && after == ServerState::Running
            &&& is_order(p, 9) && server != ServerState::Created ==> actions == seq![
                Action::Cancel,
            ] && after == ServerState::Missing
            &&& begins(p, 0x80, 1) && server == ServerState::Running ==> actions == seq![
                Action::ForwardInput,
            ]
            &&& begins(p, 0x80, 1) && server != ServerState::Running ==> actions.len() == 0
            &&& !bound && !is_order(p, 9) ==> after == server
            &&& !bound && !asked && !is_order(p, 9) && !is_order(p, 1) && !begins(p, 0x80, 1)
                ==> actions.len() == 0
        }),
{
}

/// The input task binds the keys once its channel is open and hands every report on.
pub proof fn law_input_task(channel: u8, id: i32, p: PacketView, msg: Incoming)
    requires
        messages::readable(p),
    ensures
        ({
            let actions = service_tasks::input_task_actions(channel, id, p, msg);
            let asked = begins(p, 0, 8) && msg == consent();
            &&& asked ==> actions == seq![
                Action::Send { channel, flags: 11, message: Outgoing::KeyBindingRequest },
            ]
            &&& begins(p, 0x80, 1) ==> actions == seq![Action::ForwardInput]
            &&& !asked && !begins(p, 0x80, 1) && !is_order(p, 1) ==> actions.len() == 0
        }),
{
}

// ---------------------------------------------------------------------------
// The video task and the recorder.

/// A focus report (80 08) to the video task, as for the service, with commands to the
/// recorder: the parameters at the first start, then 4 to pause and 5 to go on.
pub proof fn law_video_task_steers_the_recorder(
    t: VideoTask,
    enabled: bool,
    channel: u8,
    id: i32,
    p: PacketView,
    msg: Incoming,
)
    requires
        begins(p, 0x80, 8),
        msg is VideoFocusNotification,
        0 <= t.projection.session_id < i32::MAX,
    ensures
        ({
            let focus = msg->focus;
            let shown = focus == VideoFocusMode::Projected || focus
                == VideoFocusMode::ProjectedNoInputFocus;
            let next = Action::Send {
                channel,
                flags: 11,
                message: Outgoing::Start {
                    session_id: (t.projection.session_id + 1) as i32,
                    configuration_index: 0,
                },
            };
            let stop = Action::Send { channel, flags: 11, message: Outgoing::Stop };
            let state = t.projection.state;
            let actions = t.actions(channel, id, enabled, p, msg);
            &&& shown && state == ProjectionStatus::TransitionToProjected ==> actions == seq![
                next,
                Action::RecordVideo { channel, video: t.video_params },
            ]
            &&& shown && state == ProjectionStatus::ProjectedPause ==> actions == seq![
                Action::Recorder { channel, command: 5 },
                next,
            ]
            &&& !shown && state == ProjectionStatus::ProjectedRecording ==> actions == seq![
                Action::Recorder { channel, command: 4 },
                stop,
            ]
            &&& shown && state == ProjectionStatus::ProjectedRecording || !shown && state
                != ProjectionStatus::ProjectedRecording ==> actions.len() == 0
            &&& t.after(p, msg) == (VideoTask { projection: t.after(p, msg).projection, ..t })
        }),
{
}

/// What is read back from a number in groups of seven bits.
pub open spec fn varint_value(s: Seq<u8>) -> nat
    decreases s.len(),
{
    if s.len() == 0 {
        0
    } else {
        (s[0] % 128) as nat + 128 * varint_value(s.skip(1))
    }
}

/// A number in groups of seven bits has no more bytes than it needs, all but the last are
/// marked by their top bit, and it is read back.
pub proof fn law_varint_round_trip(n: nat)
    ensures
        varint_value(recorder::varint(n)) == n,
        recorder::varint(n).len() > 0,
        n < 128 ==> recorder::varint(n).len() == 1,
        forall|i: int|
            0 <= i < recorder::varint(n).len() ==> ((#[trigger] recorder::varint(n)[i] >= 128) == (i
                < recorder::varint(n).len() - 1)),
        n > 0 ==> recorder::varint(n).last() > 0,
    decreases n,
{
    let s = recorder::varint(n);
    if n < 128 {
        assert(s.skip(1) =~= Seq::<u8>::empty());
        assert(varint_value(s.skip(1)) == 0);
    } else {
        law_varint_round_trip(n / 128);
        let rest = recorder::varint(n / 128);
        assert(s.skip(1) =~= rest);
        assert forall|i: int| 0 <= i < s.len() implies ((#[trigger] s[i] >= 128) == (i < s.len()
            - 1)) by {
            if i > 0 {
                assert(s[i] == rest[i - 1]);
            }
        }
        assert(s.last() == rest.last());
    }
}

/// Signed numbers are folded without loss: even numbers stand for those from zero on, odd
/// ones for the negative, small magnitudes first.
pub proof fn law_zig_zag_is_undone(v: int)
    ensures
        recorder::zig_zag(v) % 2 == 0 ==> recorder::zig_zag(v) / 2 == v,
        recorder::zig_zag(v) % 2 == 1 ==> -((recorder::zig_zag(v) + 1) / 2) == v,
        v >= 0 <==> recorder::zig_zag(v) % 2 == 0,
{
}

/// The recorder gets the parameters of the video field after field: each as the bytes of its
/// number, in the order bit rate, width, height, frame rate, density, channel, window.
pub proof fn law_video_parameters_in_order(p: VideoStreamingParams)
    ensures
        ({
            let f = |v: int| recorder::varint(recorder::zig_zag(v));
            let b = recorder::video_params_bytes(p);
            let n1 = f(p.bitrate as int).len() as int;
            let n2 = n1 + f(p.res_w as int).len();
            let n3 = n2 + f(p.res_h as int).len();
            let n4 = n3 + f(p.fps as int).len();
            let n5 = n4 + f(p.dpi as int).len();
            &&& b.subrange(0, n1) == f(p.bitrate as int)
            &&& b.subrange(n1, n2) == f(p.res_w as int)
            &&& b.subrange(n2, n3) == f(p.res_h as int)
            &&& b.subrange(n3, n4) == f(p.fps as int)
            &&& b.subrange(n4, n5) == f(p.dpi as int)
            &&& b[n5] == p.sid
            &&& b.skip(n5 + 1) == recorder::varint(p.max_unack as nat)
        }),
{
    let f = |v: int| recorder::varint(recorder::zig_zag(v));
    let b = recorder::video_params_bytes(p);
    let n1 = f(p.bitrate as int).len() as int;
    let n2 = n1 + f(p.res_w as int).len();
    let n3 = n2 + f(p.res_h as int).len();
    let n4 = n3 + f(p.fps as int).len();
    let n5 = n4 + f(p.dpi as int).len();
    assert(b.subrange(0, n1) =~= f(p.bitrate as int));
    assert(b.subrange(n1, n2) =~= f(p.res_w as int));
    assert(b.subrange(n2, n3) =~= f(p.res_h as int));
    assert(b.subrange(n3, n4) =~= f(p.fps as int));
    assert(b.subrange(n4, n5) =~= f(p.dpi as int));
    assert(b.skip(n5 + 1) =~= recorder::varint(p.max_unack as nat));
}

/// The recorder gets the parameters of the sound field after field: the codec by its number,
/// the bit rate, the channel and the window.
pub proof fn law_audio_parameters_in_order(p: aa_services::AudioStreamingParams)
    ensures
        ({
            let b = recorder::audio_params_bytes(p);
            let rate = recorder::varint(recorder::zig_zag(p.bitrate as int));
            &&& p.codec == MediaCodec::AUDIO_PCM ==> b[0] == 0
            &&& p.codec == MediaCodec::AUDIO_AAC_LC ==> b[0] == 1
            &&& p.codec == MediaCodec::VIDEO_H264_BP ==> b[0] == 2
            &&& p.codec == MediaCodec::AUDIO_AAC_LC_ADTS ==> b[0] == 3
            &&& p.codec == MediaCodec::VIDEO_VP9 ==> b[0] == 4
            &&& p.codec == MediaCodec::VIDEO_AV1 ==> b[0] == 5
            &&& p.codec == MediaCodec::VIDEO_H265 ==> b[0] == 6
            &&& b.subrange(1, 1 + rate.len() as int) == rate
            &&& b[1 + rate.len() as int] == p.sid
            &&& b.skip(2 + rate.len() as int) == recorder::varint(p.max_unack as nat)
        }),
{
    let b = recorder::audio_params_bytes(p);
    let rate = recorder::varint(recorder::zig_zag(p.bitrate as int));
    assert(recorder::varint(recorder::codec_index(p.codec) as nat).len() == 1);
    assert(b.subrange(1, 1 + rate.len() as int) =~= rate);
    assert(b.skip(2 + rate.len() as int) =~= recorder::varint(p.max_unack as nat));
}

/// How services begin: pictures and sound do not flow, nothing is recorded, the first video
/// session will be 1 and the first of the sound 2.
pub proof fn law_services_begin_at_rest(
    sid: i8,
    video: VideoStreamingParams,
    acfg: aa_services::AudioConfig,
    audio: aa_services::AudioStreamingParams,
    ignore_ack: bool,
    enabled: bool,
)
    ensures
        ({
            let v = SrvMediaSinkVideoStreaming::fresh(sid, video, ignore_ack, enabled);
            let a = SrvMediaSinkAudioStreaming::fresh(sid, acfg, audio, ignore_ack, enabled);
            &&& v.base.sid == sid && a.base.sid == sid
            &&& v.base.srv_type == aa_services::ServiceType::MediaSink && a.base.srv_type
                == aa_services::ServiceType::MediaSink
            &&& v.enabled == enabled && a.enabled == enabled
            &&& v.ignore_ack == ignore_ack && a.ignore_ack == ignore_ack
            &&& v.video_params == video && a.audio_params == audio && a.acfg == acfg
            &&& !v.video_streaming_started && !v.config_recived && v.scrcpy_server
                == ServerState::Created
            &&& v.projection == (Projection {
                state: ProjectionStatus::TransitionToProjected,
                video_focus: false,
                session_id: 0,
            })
            &&& a.scrcpy_server == ServerState::Created
            &&& !a.playback.audio_streaming_started && !a.playback.audio_stream_paused
                && !a.playback.config_recived && a.playback.session_id == 1
        }),
{
}

} // verus!
