//! The services as tasks that steer a shared recorder by commands.
//!
//! Each function here is one round of a task: it takes the packet that came, and
//! drops it where it belongs to another channel.
use vstd::prelude::*;

use crate::aa_services;
use crate::aa_services::{
    make_open_request, make_reply, pick_setup_codec, plain_step, saw_command, saw_config_ready,
    saw_opened, sensor_step, Action, AudioConfig, AudioStreamingParams, MediaCodec, SensorType,
    VideoStreamingParams,
};
use crate::channel_manager::{Packet, PacketView, ENCRYPTED_FULL};
use crate::media_sinks;
use crate::media_sinks::{guidance_step, saw_audio_focus, saw_focus};
use crate::media_sinks::{AudioPlayback, FocusChange, Projection};
use crate::messages;
use crate::messages::{compose, Incoming, Outgoing};
use crate::protos;
use crate::wire;

verus! {

/// Whether a packet is on the channel of a task; a task takes no other.
pub open spec fn concerns(ch_id: i32, p: PacketView) -> bool {
    p.channel == ch_id as u8
}

/// Whether a task can look at the packet, where it is meant for the task.
pub open spec fn task_readable(ch_id: i32, pkt: PacketView) -> bool {
    concerns(ch_id, pkt) ==> messages::readable(pkt)
}

/// Why a task ends.
#[derive(Clone, Copy, Debug, PartialEq, Eq, Structural)]
pub enum TaskEnd {
    /// The queue of its packets is closed.
    HungUp,
}

/// What comes of looking into the queue of a task.
pub open spec fn received_or_end(received: Option<Packet>) -> Result<Packet, TaskEnd> {
    match received {
        Some(pkt) => Ok(pkt),
        None => Err(TaskEnd::HungUp),
    }
}

/// What a task takes from the queue of its packets. It goes on with every packet, and ends
/// with an error once the queue is closed.
pub fn next_packet(received: Option<Packet>) -> (r: Result<Packet, TaskEnd>)
    ensures
        r == received_or_end(received),
{
    match received {
        Some(pkt) => Ok(pkt),
        None => Err(TaskEnd::HungUp),
    }
}

/// One round of the sensor task.
pub fn th_sensor_source(
    ch_id: i32,
    sensors: &Vec<SensorType>,
    prev_nt_mode: &mut bool,
    pkt: &Packet,
    msg: &Incoming,
) -> (r: Vec<Action>)
    requires
        task_readable(ch_id, pkt@),
    ensures
        concerns(ch_id, pkt@) ==> r@ == aa_services::sensor_actions(
            ch_id as u8,
            ch_id,
            sensors@,
            *old(prev_nt_mode),
            pkt@,
            *msg,
        ) && *final(prev_nt_mode) == aa_services::sensor_night(*old(prev_nt_mode), pkt@, *msg),
        !concerns(ch_id, pkt@) ==> r@ == Seq::<Action>::empty() && *final(prev_nt_mode) == *old(
            prev_nt_mode,
        ),
{
    if pkt.channel != ch_id as u8 {
        return Vec::new();
    }
    sensor_step(ch_id as u8, ch_id, sensors, prev_nt_mode, pkt, msg)
}

/// One round of the media source task.
pub fn th_media_source(ch_id: i32, pkt: &Packet) -> (r: Vec<Action>)
    requires
        task_readable(ch_id, pkt@),
    ensures
        r@ == if concerns(ch_id, pkt@) {
            aa_services::plain_actions(ch_id as u8, ch_id, pkt@)
        } else {
            seq![]
        },
{
    if pkt.channel != ch_id as u8 {
        return Vec::new();
    }
    plain_step(ch_id as u8, ch_id, pkt)
}

/// One round of the vendor extension task.
pub fn th_vendor_extension(ch_id: i32, pkt: &Packet) -> (r: Vec<Action>)
    requires
        task_readable(ch_id, pkt@),
    ensures
        r@ == if concerns(ch_id, pkt@) {
            aa_services::plain_actions(ch_id as u8, ch_id, pkt@)
        } else {
            seq![]
        },
{
    if pkt.channel != ch_id as u8 {
        return Vec::new();
    }
    plain_step(ch_id as u8, ch_id, pkt)
}

/// One round of the Bluetooth task.
pub fn th_bluetooth(ch_id: i32, pkt: &Packet) -> (r: Vec<Action>)
    requires
        task_readable(ch_id, pkt@),
    ensures
        r@ == if concerns(ch_id, pkt@) {
            aa_services::plain_actions(ch_id as u8, ch_id, pkt@)
        } else {
            seq![]
        },
{
    if pkt.channel != ch_id as u8 {
        return Vec::new();
    }
    plain_step(ch_id as u8, ch_id, pkt)
}

/// One round of the guidance task.
pub fn th_media_sink_audio_guidance(
    ch_id: i32,
    enabled: bool,
    acfg: &AudioConfig,
    audio_stream_started: &mut bool,
    pkt: &Packet,
    msg: &Incoming,
) -> (r: Vec<Action>)
    requires
        task_readable(ch_id, pkt@),
    ensures
        concerns(ch_id, pkt@) ==> r@ == media_sinks::guidance_actions(
            ch_id as u8,
            ch_id,
            enabled,
            acfg.codec,
            pkt@,
            *msg,
        ) && *final(audio_stream_started) == media_sinks::guidance_started(
            *old(audio_stream_started),
            acfg.codec,
            pkt@,
            *msg,
        ),
        !concerns(ch_id, pkt@) ==> r@ == Seq::<Action>::empty() && *final(audio_stream_started)
            == *old(audio_stream_started),
{
    if pkt.channel != ch_id as u8 {
        return Vec::new();
    }
    guidance_step(ch_id as u8, ch_id, enabled, acfg.codec, audio_stream_started, pkt, msg)
}

/// What the input task does at a packet of its channel.
pub open spec fn input_task_actions(
    channel: u8,
    service_id: i32,
    pkt: PacketView,
    msg: Incoming,
) -> Seq<Action> {
    if aa_services::opened(pkt, msg) {
        seq![aa_services::reply(channel, Outgoing::KeyBindingRequest)]
    } else if aa_services::is_command(pkt, protos::CMD_OPEN_CH) {
        seq![aa_services::open_request(channel, service_id)]
    } else if pkt.message_id() == protos::INPUT_MESSAGE_INPUT_REPORT {
        seq![Action::ForwardInput]
    } else {
        seq![]
    }
}

/// One round of the input task.
pub fn th_input_source(ch_id: i32, pkt: &Packet, msg: &Incoming) -> (r: Vec<Action>)
    requires
        task_readable(ch_id, pkt@),
    ensures
        r@ == if concerns(ch_id, pkt@) {
            input_task_actions(ch_id as u8, ch_id, pkt@, *msg)
        } else {
            seq![]
        },
{
    let mut r: Vec<Action> = Vec::new();
    if pkt.channel != ch_id as u8 {
        return r;
    }
    let channel: u8 = ch_id as u8;
    if saw_opened(pkt, msg) {
        r.push(make_reply(channel, Outgoing::KeyBindingRequest));
    } else if saw_command(pkt, protos::CMD_OPEN_CH) {
        r.push(make_open_request(channel, ch_id));
    } else if pkt.message_id() == protos::INPUT_MESSAGE_INPUT_REPORT {
        r.push(Action::ForwardInput);
    }
    assert(r@ =~= input_task_actions(channel, ch_id, pkt@, *msg));
    r
}

/// What the video task remembers between packets.
#[derive(Clone, Copy, Debug, PartialEq, Eq, Structural)]
pub struct VideoTask {
    pub projection: Projection,
    pub config_recived: bool,
    pub video_params: VideoStreamingParams,
}

impl VideoTask {
    pub fn new(video_params: VideoStreamingParams) -> (r: Self)
        ensures
            r == (VideoTask {
                projection: Projection {
                    state: aa_services::ProjectionStatus::TransitionToProjected,
                    video_focus: false,
                    session_id: 0,
                },
                config_recived: false,
                video_params,
            }),
    {
        VideoTask { projection: Projection::new(), config_recived: false, video_params }
    }

    /// The task after a packet of its channel.
    pub open spec fn after(self, pkt: PacketView, msg: Incoming) -> Self {
        if aa_services::config_ready(pkt, msg) {
            VideoTask {
                config_recived: true,
                video_params: VideoStreamingParams {
                    max_unack: aa_services::max_unacked(msg),
                    ..self.video_params
                },
                ..self
            }
        } else {
            match media_sinks::reported_focus(pkt, msg) {
                Some(focus) => VideoTask { projection: self.projection.after(focus), ..self },
                None => self,
            }
        }
    }

    /// What the task does at a packet of its channel.
    pub open spec fn actions(
        self,
        channel: u8,
        service_id: i32,
        enabled: bool,
        pkt: PacketView,
        msg: Incoming,
    ) -> Seq<Action> {
        let setup = aa_services::reply(channel, media_sinks::video_setup_message());
        let stop = aa_services::reply(channel, Outgoing::Stop);
        if aa_services::opened(pkt, msg) {
            if enabled {
                seq![setup]
            } else {
                seq![]
            }
        } else if aa_services::is_command(pkt, protos::CMD_OPEN_CH) {
            seq![aa_services::open_request(channel, service_id)]
        } else if aa_services::is_command(pkt, protos::MD_DISCONNECTED) {
            seq![stop, setup]
        } else {
            match media_sinks::reported_focus(pkt, msg) {
                Some(focus) => {
                    let start = aa_services::reply(
                        channel,
                        media_sinks::start_message(self.projection.after(focus).session_id),
                    );
                    match self.projection.change(focus) {
                        FocusChange::Begin => seq![
                            start,
                            Action::RecordVideo { channel, video: self.video_params },
                        ],
                        FocusChange::Resume => seq![
                            Action::Recorder {
                                channel,
                                command: protos::CMD_RESUME_VIDEO_RECORDING,
                            },
                            start,
                        ],
                        FocusChange::Pause => seq![
                            Action::Recorder {
                                channel,
                                command: protos::CMD_PAUSE_VIDEO_RECORDING,
                            },
                            stop,
                        ],
                        FocusChange::Nothing => seq![],
                    }
                },
                None => seq![],
            }
        }
    }
}

/// One round of the video task.
pub fn th_media_sink_video(
    ch_id: i32,
    enabled: bool,
    task: &mut VideoTask,
    pkt: &Packet,
    msg: &Incoming,
) -> (r: Vec<Action>)
    requires
        task_readable(ch_id, pkt@),
        media_sinks::reported_focus(pkt@, *msg) matches Some(focus) ==> old(
            task,
        ).projection.opens_session(focus) ==> old(task).projection.session_id < i32::MAX,
    ensures
        concerns(ch_id, pkt@) ==> r@ == old(task).actions(
            ch_id as u8,
            ch_id,
            enabled,
            pkt@,
            *msg,
        ) && *final(task) == old(task).after(pkt@, *msg),
        !concerns(ch_id, pkt@) ==> r@ == Seq::<Action>::empty() && *final(task) == *old(task),
{
    let mut r: Vec<Action> = Vec::new();
    if pkt.channel != ch_id as u8 {
        return r;
    }
    let channel: u8 = ch_id as u8;
    let setup = make_reply(channel, Outgoing::Setup { codec: Some(MediaCodec::VIDEO_H264_BP) });
    let stop = make_reply(channel, Outgoing::Stop);
    if saw_opened(pkt, msg) {
        if enabled {
            r.push(setup);
        }
    } else if saw_command(pkt, protos::CMD_OPEN_CH) {
        r.push(make_open_request(channel, ch_id));
    } else if saw_command(pkt, protos::MD_DISCONNECTED) {
        r.push(stop);
        r.push(setup);
    } else if let Some(max_unacked) = saw_config_ready(pkt, msg) {
        task.config_recived = true;
        task.video_params.max_unack = max_unacked;
    } else if let Some(focus) = saw_focus(pkt, msg) {
        let change = task.projection.notice(focus);
        let start = make_reply(
            channel,
            Outgoing::Start { session_id: task.projection.session_id, configuration_index: 0 },
        );
        match change {
            FocusChange::Begin => {
                r.push(start);
                r.push(Action::RecordVideo { channel, video: task.video_params });
            },
            FocusChange::Resume => {
                r.push(
                    Action::Recorder { channel, command: protos::CMD_RESUME_VIDEO_RECORDING },
                );
                r.push(start);
            },
            FocusChange::Pause => {
                r.push(Action::Recorder { channel, command: protos::CMD_PAUSE_VIDEO_RECORDING });
                r.push(stop);
            },
            FocusChange::Nothing => {},
        }
    }
    assert(r@ =~= old(task).actions(channel, ch_id, enabled, pkt@, *msg));
    r
}

// ---------------------------------------------------------------------------
// What the video task does over a run of focus reports.

/// A packet with what was read from it.
pub type Report = (PacketView, Incoming);

/// Whether the head unit tells with the packet that it shows the projection.
pub open spec fn turns_on(report: Report) -> bool {
    media_sinks::reported_focus(report.0, report.1) matches Some(focus)
        && media_sinks::shows_projection(focus)
}

/// How often the picture goes on or off over a run of focus reports. It is off at first,
/// so it is on after an odd number of turns.
pub open spec fn turns(run: Seq<Report>) -> nat
    decreases run.len(),
{
    if run.len() == 0 {
        0
    } else {
        let before = turns(run.drop_last());
        if turns_on(run.last()) == (before % 2 == 1) {
            before
        } else {
            before + 1
        }
    }
}

impl VideoTask {
    /// The task after a run of packets of its channel.
    pub open spec fn after_run(self, run: Seq<Report>) -> Self
        decreases run.len(),
    {
        if run.len() == 0 {
            self
        } else {
            self.after_run(run.drop_last()).after(run.last().0, run.last().1)
        }
    }

    /// All that the task does over a run of packets of its channel.
    pub open spec fn run_actions(
        self,
        channel: u8,
        service_id: i32,
        enabled: bool,
        run: Seq<Report>,
    ) -> Seq<Action>
        decreases run.len(),
    {
        if run.len() == 0 {
            Seq::empty()
        } else {
            self.run_actions(channel, service_id, enabled, run.drop_last()) + self.after_run(
                run.drop_last(),
            ).actions(channel, service_id, enabled, run.last().0, run.last().1)
        }
    }
}

/// Whether the action sends a message to the head unit.
pub open spec fn to_head_unit(a: Action) -> bool {
    a is Send
}

/// Whether the action sends a command to the recorder.
pub open spec fn to_recorder(a: Action) -> bool {
    a is Recorder || a is RecordVideo || a is RecordAudio
}

/// Whether the action sends a message that starts a session.
pub open spec fn starts_session(a: Action) -> bool {
    a matches Action::Send { message, .. } && message is Start
}

/// Whether the action sends the message that stops a session.
pub open spec fn stops_session(a: Action) -> bool {
    a matches Action::Send { message, .. } && message is Stop
}

/// Start and stop in turn, with the sessions numbered from one.
pub open spec fn starts_and_stops(channel: u8, n: nat) -> Seq<Action> {
    Seq::new(
        n,
        |i: int|
            if i % 2 == 0 {
                aa_services::reply(channel, media_sinks::start_message((i / 2 + 1) as i32))
            } else {
                aa_services::reply(channel, Outgoing::Stop)
            },
    )
}

/// The command that starts video recording, then pause and resume in turn.
pub open spec fn recorder_commands(
    channel: u8,
    video: VideoStreamingParams,
    n: nat,
) -> Seq<Action> {
    Seq::new(
        n,
        |i: int|
            if i == 0 {
                Action::RecordVideo { channel, video }
            } else if i % 2 == 1 {
                Action::Recorder { channel, command: protos::CMD_PAUSE_VIDEO_RECORDING }
            } else {
                Action::Recorder { channel, command: protos::CMD_RESUME_VIDEO_RECORDING }
            },
    )
}

proof fn lemma_filter_push(s: Seq<Action>, a: Action, keep: spec_fn(Action) -> bool)
    ensures
        s.push(a).filter(keep) == if keep(a) {
            s.filter(keep).push(a)
        } else {
            s.filter(keep)
        },
{
    reveal(Seq::filter);
    assert(s.push(a).drop_last() =~= s);
}

proof fn lemma_filter_two(s: Seq<Action>, a: Action, b: Action, keep: spec_fn(Action) -> bool)
    requires
        keep(a) != keep(b),
    ensures
        (s + seq![a, b]).filter(keep) == s.filter(keep).push(
            if keep(a) {
                a
            } else {
                b
            },
        ),
{
    lemma_filter_push(s, a, keep);
    lemma_filter_push(s.push(a), b, keep);
    assert(s + seq![a, b] =~= s.push(a).push(b));
}

proof fn lemma_starts_and_stops_are_counted(channel: u8, n: nat)
    ensures
        starts_and_stops(channel, n).filter(|a: Action| starts_session(a)).len() == (n + 1) / 2,
        starts_and_stops(channel, n).filter(|a: Action| stops_session(a)).len() == n / 2,
    decreases n,
{
    let starts = |a: Action| starts_session(a);
    let stops = |a: Action| stops_session(a);
    if n == 0 {
        reveal(Seq::filter);
    } else {
        let m = (n - 1) as nat;
        let before = starts_and_stops(channel, m);
        let last = starts_and_stops(channel, n).last();
        lemma_starts_and_stops_are_counted(channel, m);
        lemma_filter_push(before, last, starts);
        lemma_filter_push(before, last, stops);
        assert(starts_and_stops(channel, n) =~= before.push(last));
    }
}

/// A fresh video task over a run of focus reports: the head unit gets start and stop
/// strictly in turn, beginning with a start, and the k-th start opens session k. There is
/// one start more than there are stops exactly where the last report was that the head unit
/// shows the projection. The recorder gets the command to start once, then pause and resume
/// in turn. The numbers of the sessions must fit their type.
pub proof fn law_video_focus_run(
    task: VideoTask,
    channel: u8,
    service_id: i32,
    enabled: bool,
    run: Seq<Report>,
)
    requires
        task.projection.state == aa_services::ProjectionStatus::TransitionToProjected,
        task.projection.session_id == 0,
        forall|i: int|
            0 <= i < run.len() ==> media_sinks::reported_focus(
                (#[trigger] run[i]).0,
                run[i].1,
            ) is Some,
        (turns(run) + 1) / 2 <= i32::MAX,
    ensures
        ({
            let actions = task.run_actions(channel, service_id, enabled, run);
            let sent = actions.filter(|a: Action| to_head_unit(a));
            let starts = sent.filter(|a: Action| starts_session(a)).len();
            let stops = sent.filter(|a: Action| stops_session(a)).len();
            &&& sent == starts_and_stops(channel, turns(run))
            &&& actions.filter(|a: Action| to_recorder(a)) == recorder_commands(
                channel,
                task.video_params,
                turns(run),
            )
            &&& starts - stops == if run.len() > 0 && turns_on(run.last()) {
                1int
            } else {
                0
            }
            &&& task.after_run(run).projection.session_id == starts
        }),
{
    lemma_focus_run(task, channel, service_id, enabled, run);
    lemma_starts_and_stops_are_counted(channel, turns(run));
}

proof fn lemma_focus_run(
    task: VideoTask,
    channel: u8,
    service_id: i32,
    enabled: bool,
    run: Seq<Report>,
)
    requires
        task.projection.state == aa_services::ProjectionStatus::TransitionToProjected,
        task.projection.session_id == 0,
        forall|i: int|
            0 <= i < run.len() ==> media_sinks::reported_focus(
                (#[trigger] run[i]).0,
                run[i].1,
            ) is Some,
        (turns(run) + 1) / 2 <= i32::MAX,
    ensures
        ({
            let actions = task.run_actions(channel, service_id, enabled, run);
            let n = turns(run);
            let last = task.after_run(run);
            &&& actions.filter(|a: Action| to_head_unit(a)) == starts_and_stops(channel, n)
            &&& actions.filter(|a: Action| to_recorder(a)) == recorder_commands(
                channel,
                task.video_params,
                n,
            )
            &&& n % 2 == 1 <==> run.len() > 0 && turns_on(run.last())
            &&& last.video_params == task.video_params
            &&& last.projection.session_id == (n + 1) / 2
            &&& last.projection.state == if n == 0 {
                aa_services::ProjectionStatus::TransitionToProjected
            } else if n % 2 == 1 {
                aa_services::ProjectionStatus::ProjectedRecording
            } else {
                aa_services::ProjectionStatus::ProjectedPause
            }
        }),
    decreases run.len(),
{
    let sends = |a: Action| to_head_unit(a);
    let records = |a: Action| to_recorder(a);
    if run.len() == 0 {
        reveal(Seq::filter);
        assert(Seq::<Action>::empty().filter(sends) =~= starts_and_stops(channel, 0));
        assert(Seq::<Action>::empty().filter(records) =~= recorder_commands(
            channel,
            task.video_params,
            0,
        ));
    } else {
        let prefix = run.drop_last();
        let before = turns(prefix);
        assert forall|i: int| 0 <= i < prefix.len() implies media_sinks::reported_focus(
            (#[trigger] prefix[i]).0,
            prefix[i].1,
        ) is Some by {
            assert(prefix[i] == run[i]);
        }
        assert(run.last() == run[run.len() - 1]);
        lemma_focus_run(task, channel, service_id, enabled, prefix);
        let done = task.run_actions(channel, service_id, enabled, prefix);
        let state = task.after_run(prefix);
        let last = run.last();
        let new = state.actions(channel, service_id, enabled, last.0, last.1);
        if turns(run) == before {
            assert(new =~= Seq::<Action>::empty());
            assert(done + new =~= done);
        } else {
            lemma_filter_two(done, new[0], new[1], sends);
            lemma_filter_two(done, new[0], new[1], records);
            assert(new =~= seq![new[0], new[1]]);
            assert(starts_and_stops(channel, turns(run)) =~= starts_and_stops(
                channel,
                before,
            ).push(starts_and_stops(channel, turns(run)).last()));
            assert(recorder_commands(channel, task.video_params, turns(run))
                =~= recorder_commands(channel, task.video_params, before).push(
                recorder_commands(channel, task.video_params, turns(run)).last(),
            ));
        }
    }
}

/// What the audio task remembers between packets.
#[derive(Clone, Copy, Debug, PartialEq, Eq, Structural)]
pub struct AudioTask {
    pub playback: AudioPlayback,
    pub audio_params: AudioStreamingParams,
}

impl AudioTask {
    pub fn new(audio_params: AudioStreamingParams) -> (r: Self)
        ensures
            r == (AudioTask { playback: AudioPlayback::initial(), audio_params }),
    {
        AudioTask { playback: AudioPlayback::new(), audio_params }
    }

    /// The task after a packet of its channel.
    pub open spec fn after(self, codec: MediaCodec, pkt: PacketView, msg: Incoming) -> Self {
        AudioTask {
            playback: self.playback.after(codec, pkt, msg),
            audio_params: AudioStreamingParams {
                max_unack: if aa_services::config_ready(pkt, msg) {
                    aa_services::max_unacked(msg)
                } else {
                    self.audio_params.max_unack
                },
                ..self.audio_params
            },
        }
    }

    /// What the task does at a packet of its channel.
    pub open spec fn actions(
        self,
        channel: u8,
        service_id: i32,
        enabled: bool,
        codec: MediaCodec,
        pkt: PacketView,
        msg: Incoming,
    ) -> Seq<Action> {
        let stop = aa_services::reply(channel, Outgoing::Stop);
        let start = aa_services::reply(
            channel,
            media_sinks::start_message(self.after(codec, pkt, msg).playback.session_id),
        );
        if aa_services::opened(pkt, msg) {
            if enabled {
                seq![
                    aa_services::reply(
                        channel,
                        Outgoing::Setup { codec: aa_services::setup_codec(codec) },
                    ),
                ]
            } else {
                seq![]
            }
        } else if aa_services::is_command(pkt, protos::CMD_OPEN_CH) {
            seq![aa_services::open_request(channel, service_id)]
        } else if aa_services::is_command(pkt, protos::MD_DISCONNECTED) {
            seq![stop]
        } else if aa_services::config_ready(pkt, msg) {
            if media_sinks::is_recordable(codec) {
                seq![
                    start,
                    Action::RecordAudio {
                        channel,
                        audio: self.after(codec, pkt, msg).audio_params,
                    },
                ]
            } else {
                seq![]
            }
        } else {
            match media_sinks::reported_audio_focus(pkt, msg) {
                Some(state) => if self.playback.resumes(state) {
                    seq![
                        start,
                        Action::Recorder { channel, command: protos::CMD_RESUME_AUDIO_RECORDING },
                    ]
                } else if self.playback.pauses(state) {
                    seq![
                        stop,
                        Action::Recorder { channel, command: protos::CMD_PAUSE_AUDIO_RECORDING },
                    ]
                } else {
                    seq![]
                },
                None => seq![],
            }
        }
    }
}

/// One round of the audio task.
pub fn th_media_sink_audio_streaming(
    ch_id: i32,
    enabled: bool,
    acfg: &AudioConfig,
    task: &mut AudioTask,
    pkt: &Packet,
    msg: &Incoming,
) -> (r: Vec<Action>)
    requires
        task_readable(ch_id, pkt@),
        aa_services::config_ready(pkt@, *msg) && media_sinks::is_recordable(acfg.codec) ==> old(
            task,
        ).playback.session_id < i32::MAX,
    ensures
        concerns(ch_id, pkt@) ==> r@ == old(task).actions(
            ch_id as u8,
            ch_id,
            enabled,
            acfg.codec,
            pkt@,
            *msg,
        ) && *final(task) == old(task).after(acfg.codec, pkt@, *msg),
        !concerns(ch_id, pkt@) ==> r@ == Seq::<Action>::empty() && *final(task) == *old(task),
        old(task).playback.well_formed() ==> final(task).playback.well_formed(),
{
    let mut r: Vec<Action> = Vec::new();
    if pkt.channel != ch_id as u8 {
        return r;
    }
    let channel: u8 = ch_id as u8;
    let codec = acfg.codec;
    let before = task.playback;
    task.playback.notice(codec, pkt, msg);
    let start = make_reply(
        channel,
        Outgoing::Start { session_id: task.playback.session_id, configuration_index: 0 },
    );
    if saw_opened(pkt, msg) {
        if enabled {
            r.push(make_reply(channel, Outgoing::Setup { codec: pick_setup_codec(codec) }));
        }
    } else if saw_command(pkt, protos::CMD_OPEN_CH) {
        r.push(make_open_request(channel, ch_id));
    } else if saw_command(pkt, protos::MD_DISCONNECTED) {
        r.push(make_reply(channel, Outgoing::Stop));
    } else if let Some(max_unacked) = saw_config_ready(pkt, msg) {
        task.audio_params.max_unack = max_unacked;
        if codec == MediaCodec::AUDIO_PCM || codec == MediaCodec::AUDIO_AAC_LC {
            r.push(start);
            r.push(Action::RecordAudio { channel, audio: task.audio_params });
        }
    } else if let Some(_) = saw_audio_focus(pkt, msg) {
        if before.audio_stream_paused && !task.playback.audio_stream_paused {
            r.push(start);
            r.push(Action::Recorder { channel, command: protos::CMD_RESUME_AUDIO_RECORDING });
        } else if !before.audio_stream_paused && task.playback.audio_stream_paused {
            r.push(make_reply(channel, Outgoing::Stop));
            r.push(Action::Recorder { channel, command: protos::CMD_PAUSE_AUDIO_RECORDING });
        }
    }
    assert(r@ =~= old(task).actions(channel, ch_id, enabled, codec, pkt@, *msg));
    r
}

/// The packets that show a still picture before the projection begins: the codec's
/// configuration, and the picture with the time stamp zero.
pub open spec fn first_screen(ch_id: u8, config: Seq<u8>, picture: Seq<u8>) -> (
    PacketView,
    PacketView,
) {
    (
        messages::message_packet(
            ch_id,
            ENCRYPTED_FULL,
            protos::MEDIA_MESSAGE_CODEC_CONFIG,
            config,
        ),
        messages::message_packet(
            ch_id,
            ENCRYPTED_FULL,
            protos::MEDIA_MESSAGE_DATA,
            wire::be64(0) + picture,
        ),
    )
}

/// Makes the packets that show a still picture.
pub fn show_first_screen(ch_id: u8, cfg_frame: &Vec<u8>, first_frame: &Vec<u8>) -> (r: (
    Packet,
    Packet,
))
    ensures
        (r.0@, r.1@) == first_screen(ch_id, cfg_frame@, first_frame@),
{
    let config = compose(
        ch_id,
        ENCRYPTED_FULL,
        protos::MEDIA_MESSAGE_CODEC_CONFIG,
        cfg_frame.as_slice(),
    );
    let mut body: Vec<u8> = Vec::new();
    wire::push_be64(&mut body, 0);
    body.extend_from_slice(first_frame.as_slice());
    assert(body@ =~= wire::be64(0) + first_frame@);
    let picture = compose(ch_id, ENCRYPTED_FULL, protos::MEDIA_MESSAGE_DATA, body.as_slice());
    (config, picture)
}

/// A task takes the packets of its own channel and no others, and ends with its queue only.
pub proof fn law_tasks_keep_to_their_channel(ch_id: i32, p: PacketView, pkt: Packet)
    requires
        0 <= ch_id <= 255,
    ensures
        concerns(ch_id, p) <==> p.channel == ch_id,
        received_or_end(Some(pkt)) == Ok::<Packet, TaskEnd>(pkt),
        received_or_end(None) is Err,
{
}

/// The still picture, by its bytes: a packet of 00 01 with the configuration, then one of
/// 00 00 with eight zeros for the time and the picture; both whole, encrypted and on the
/// channel.
pub proof fn law_first_screen_by_its_bytes(ch_id: u8, config: Seq<u8>, picture: Seq<u8>)
    ensures
        ({
            let (c, p) = first_screen(ch_id, config, picture);
            &&& c.channel == ch_id && p.channel == ch_id
            &&& c.flags == 11 && p.flags == 11
            &&& c.final_length is None && p.final_length is None
            &&& c.payload.len() == config.len() + 2 && p.payload.len() == picture.len() + 10
            &&& c.payload[0] == 0 && c.payload[1] == 1
            &&& c.payload.skip(2) == config
            &&& forall|i: int| 0 <= i < 10 ==> p.payload[i] == 0
            &&& p.payload.skip(10) == picture
        }),
{
    let (c, p) = first_screen(ch_id, config, picture);
    wire::law_bytes_have_their_weight(1, 0, 0);
    assert(c.payload.skip(2) =~= config);
    assert(p.payload.skip(10) =~= picture);
}

} // verus!
