//! How the screen copy server gets onto the mobile device and is kept running there.
use vstd::prelude::*;

use crate::aa_services::{AudioStreamingParams, MediaCodec, VideoStreamingParams};
use crate::text;
use crate::text_laws;
use crate::text::{contains_text, push_decimal, push_text, string_views, with_number};

verus! {

// ---------------------------------------------------------------------------
// Commands.

/// The arguments that forward a local port to the server's socket.
pub open spec fn forward_args_spec(port: int) -> Seq<Seq<char>> {
    seq!["tcp:"@ + text::decimal(port), "localabstract:scrcpy"@]
}

/// The arguments that forward a local port to the server's socket.
pub fn forward_args(port: u16) -> (r: Vec<String>)
    ensures
        string_views(r@) == forward_args_spec(port as int),
{
    let mut r: Vec<String> = Vec::new();
    r.push(with_number("tcp:", port as i64));
    r.push("localabstract:scrcpy".to_owned());
    assert(string_views(r@) =~= forward_args_spec(port as int));
    r
}

/// The arguments that copy the server to the mobile device.
pub open spec fn push_args_spec() -> Seq<Seq<char>> {
    seq!["/etc/aa-mirror-rs/scrcpy-server"@, "/data/local/tmp/scrcpy-server-manual.jar"@]
}

/// The arguments that copy the server to the mobile device.
pub fn push_args() -> (r: Vec<String>)
    ensures
        string_views(r@) == push_args_spec(),
{
    let mut r: Vec<String> = Vec::new();
    r.push("/etc/aa-mirror-rs/scrcpy-server".to_owned());
    r.push("/data/local/tmp/scrcpy-server-manual.jar".to_owned());
    assert(string_views(r@) =~= push_args_spec());
    r
}

/// The options of the video codec: the base profile, no B frames, low latency.
pub open spec fn video_codec_options(fps: int) -> Seq<char> {
    "profile:int=1,level:int=512,i-frame-interval:int="@ + text::decimal(fps)
        + ",low-latency:int=1,max-bframes:int=0"@
}

/// The command line of the server. The display is created with the given size.
pub open spec fn server_command_spec(
    version: Seq<char>,
    audio: AudioStreamingParams,
    video: VideoStreamingParams,
    display_w: int,
    display_h: int,
) -> Seq<Seq<char>> {
    let aac = audio.codec == MediaCodec::AUDIO_AAC_LC;
    seq![
        "CLASSPATH=/data/local/tmp/scrcpy-server-manual.jar"@,
        "app_process"@,
        "/"@,
        "com.genymobile.scrcpy.Server"@,
        version,
        "log_level=info"@,
        "raw_stream=false"@,
        "send_frame_meta=true"@,
        "send_stream_meta=true"@,
        "send_dummy_byte=false"@,
        "send_device_meta=false"@,
        "tunnel_forward=true"@,
        "audio=true"@,
        "video=true"@,
        "control=true"@,
        "cleanup=true"@,
        "display_ime_policy=local"@,
        "stay_awake=true"@,
        "keep_active=true"@,
        if aac {
            "audio_codec=aac"@
        } else {
            "audio_codec=raw"@
        },
    ] + (if aac {
        seq!["audio_codec_options=aac-profile:int=2"@]
    } else {
        seq![]
    }) + seq![
        "audio_bit_rate="@ + text::decimal(audio.bitrate as int),
        "max_size="@ + text::decimal(video.res_w as int),
        "video_codec=h264"@,
        "video_codec_options="@ + video_codec_options(video.fps as int),
        "video_bit_rate="@ + text::decimal(video.bitrate as int),
        "new_display="@ + text::decimal(display_w) + "x"@ + text::decimal(display_h) + "/"@
            + text::decimal(video.dpi as int),
        "max_fps="@ + text::decimal(video.fps as int),
    ]
}

/// The command line of the server.
pub fn server_command(
    version: &str,
    audio: &AudioStreamingParams,
    video: &VideoStreamingParams,
    display_w: i32,
    display_h: i32,
) -> (r: Vec<String>)
    ensures
        string_views(r@) == server_command_spec(
            version@,
            *audio,
            *video,
            display_w as int,
            display_h as int,
        ),
{
    let aac: bool = audio.codec == MediaCodec::AUDIO_AAC_LC;
    let mut r: Vec<String> = Vec::new();
    r.push("CLASSPATH=/data/local/tmp/scrcpy-server-manual.jar".to_owned());
    r.push("app_process".to_owned());
    r.push("/".to_owned());
    r.push("com.genymobile.scrcpy.Server".to_owned());
    r.push(version.to_owned());
    r.push("log_level=info".to_owned());
    r.push("raw_stream=false".to_owned());
    r.push("send_frame_meta=true".to_owned());
    r.push("send_stream_meta=true".to_owned());
    r.push("send_dummy_byte=false".to_owned());
    r.push("send_device_meta=false".to_owned());
    r.push("tunnel_forward=true".to_owned());
    r.push("audio=true".to_owned());
    r.push("video=true".to_owned());
    r.push("control=true".to_owned());
    r.push("cleanup=true".to_owned());
    r.push("display_ime_policy=local".to_owned());
    r.push("stay_awake=true".to_owned());
    r.push("keep_active=true".to_owned());
    if aac {
        r.push("audio_codec=aac".to_owned());
        r.push("audio_codec_options=aac-profile:int=2".to_owned());
    } else {
        r.push("audio_codec=raw".to_owned());
    }
    r.push(with_number("audio_bit_rate=", audio.bitrate as i64));
    r.push(with_number("max_size=", video.res_w as i64));
    r.push("video_codec=h264".to_owned());
    let mut options = String::new();
    push_text(&mut options, "video_codec_options=");
    push_text(&mut options, "profile:int=1,level:int=512,i-frame-interval:int=");
    push_decimal(&mut options, video.fps as i64);
    push_text(&mut options, ",low-latency:int=1,max-bframes:int=0");
    assert(options@ =~= "video_codec_options="@ + video_codec_options(video.fps as int));
    r.push(options);
    r.push(with_number("video_bit_rate=", video.bitrate as i64));
    let mut display = with_number("new_display=", display_w as i64);
    push_text(&mut display, "x");
    push_decimal(&mut display, display_h as i64);
    push_text(&mut display, "/");
    push_decimal(&mut display, video.dpi as i64);
    r.push(display);
    r.push(with_number("max_fps=", video.fps as i64));
    assert(string_views(r@) =~= server_command_spec(
        version@,
        *audio,
        *video,
        display_w as int,
        display_h as int,
    ));
    r
}

/// The command that switches the theme of the mobile device.
pub open spec fn theme_command_spec(night: bool) -> Seq<Seq<char>> {
    seq![
        "cmd"@,
        "uimode"@,
        "night"@,
        if night {
            "yes"@
        } else {
            "no"@
        },
    ]
}

/// The command that switches the theme of the mobile device.
pub fn theme_command(night: bool) -> (r: Vec<String>)
    ensures
        string_views(r@) == theme_command_spec(night),
{
    let mut r: Vec<String> = Vec::new();
    r.push("cmd".to_owned());
    r.push("uimode".to_owned());
    r.push("night".to_owned());
    r.push(
        if night {
            "yes".to_owned()
        } else {
            "no".to_owned()
        },
    );
    assert(string_views(r@) =~= theme_command_spec(night));
    r
}

/// Whether the answer of a shell that still runs tells that the theme was not switched.
pub open spec fn refuses_theme(line: Seq<char>, running: bool) -> bool {
    !text::holds(line, "Night mode:"@) && running
}

/// Tells whether the theme was not switched.
pub fn theme_failed(line: &str, running: bool) -> (b: bool)
    ensures
        b == refuses_theme(line@, running),
{
    !contains_text(line, "Night mode:") && running
}

// ---------------------------------------------------------------------------
// Answers.

/// Whether some line of an answer holds the text.
pub open spec fn some_line_holds(lines: Seq<String>, needle: Seq<char>) -> bool {
    exists|i: int| 0 <= i < lines.len() && text::holds((#[trigger] lines[i])@, needle)
}

fn any_line_holds(lines: &Vec<String>, needle: &str) -> (b: bool)
    ensures
        b == some_line_holds(lines@, needle@),
{
    let mut i: usize = 0;
    while i < lines.len()
        invariant
            i <= lines@.len(),
            forall|k: int| 0 <= k < i ==> !text::holds((#[trigger] lines@[k])@, needle@),
        decreases lines@.len() - i,
    {
        if contains_text(lines[i].as_str(), needle) {
            return true;
        }
        i = i + 1;
    }
    false
}

/// Whether a port was forwarded: no line of the answer speaks of an error.
pub open spec fn is_forwarded(lines: Seq<String>) -> bool {
    !some_line_holds(lines, "error"@)
}

/// Whether a file was copied: some line of the answer names the speed.
pub open spec fn is_pushed(lines: Seq<String>) -> bool {
    some_line_holds(lines, "/s ("@)
}

/// Whether the server runs: it names the device, and its shell is alive.
pub open spec fn is_running(line: Seq<char>, alive: bool) -> bool {
    text::holds(line, "[server] INFO: Device:"@) && alive
}

/// Tells whether a port was forwarded.
pub fn forward_succeeded(lines: &Vec<String>) -> (b: bool)
    ensures
        b == is_forwarded(lines@),
{
    !any_line_holds(lines, "error")
}

/// Tells whether a file was copied.
pub fn push_succeeded(lines: &Vec<String>) -> (b: bool)
    ensures
        b == is_pushed(lines@),
{
    any_line_holds(lines, "/s (")
}

/// Tells whether the server runs.
pub fn server_runs(line: &str, alive: bool) -> (b: bool)
    ensures
        b == is_running(line@, alive),
{
    contains_text(line, "[server] INFO: Device:") && alive
}

// ---------------------------------------------------------------------------
// The task.

/// Where the task stands.
#[derive(Clone, Copy, Debug, PartialEq, Eq, Structural)]
pub enum AdbPhase {
    /// Looks for a device.
    Searching,
    /// Forwards the port.
    Forwarding,
    /// Waits until recording is to start, or the session ends.
    AwaitStart,
    /// Waits for the second request to start.
    AwaitSecondStart,
    /// Copies the server.
    Pushing,
    /// Starts the server.
    Starting,
    /// Follows the output of the server.
    Watching,
}

/// What happened to the task.
#[derive(Debug)]
pub enum AdbEvent {
    /// Whether a device was found.
    Device { found: bool },
    Forwarded { lines: Vec<String> },
    StartRequested,
    Cancelled,
    Pushed { lines: Vec<String> },
    ShellStarted { line: String, alive: bool },
    /// A line of the server's output of that length; none at its end.
    ShellOutput { len: usize },
    /// A command could not be run, or its answer could not be read.
    CommandFailed,
}

/// What the task asks for, in order.
#[derive(Clone, Copy, Debug, PartialEq, Eq, Structural)]
pub enum AdbAction {
    /// Read the configuration again and look for a device.
    FindDevice,
    Forward,
    /// Tell that a device is connected.
    NotifyConnected,
    AwaitStartOrCancel,
    AwaitStart,
    Push,
    /// End the session.
    Cancel,
    StartShell,
    KillShell,
    Delay { millis: u64 },
    AwaitOutputOrCancel,
}

/// Whether a shell may run on the mobile device in the phase.
pub open spec fn has_shell(phase: AdbPhase) -> bool {
    phase == AdbPhase::Starting || phase == AdbPhase::Watching
}

/// What the task waits on in the phase: the action that brings the next event.
pub open spec fn awaited(phase: AdbPhase) -> AdbAction {
    match phase {
        AdbPhase::Searching => AdbAction::FindDevice,
        AdbPhase::Forwarding => AdbAction::Forward,
        AdbPhase::AwaitStart => AdbAction::AwaitStartOrCancel,
        AdbPhase::AwaitSecondStart => AdbAction::AwaitStart,
        AdbPhase::Pushing => AdbAction::Push,
        AdbPhase::Starting => AdbAction::StartShell,
        AdbPhase::Watching => AdbAction::AwaitOutputOrCancel,
    }
}

/// Whether the action that the task waits on in the phase can bring the event.
pub open spec fn can_follow(phase: AdbPhase, event: AdbEvent) -> bool {
    match event {
        AdbEvent::Device { .. } => phase == AdbPhase::Searching,
        AdbEvent::Forwarded { .. } => phase == AdbPhase::Forwarding,
        AdbEvent::StartRequested => phase == AdbPhase::AwaitStart || phase
            == AdbPhase::AwaitSecondStart,
        AdbEvent::Cancelled => phase == AdbPhase::AwaitStart || phase == AdbPhase::Watching,
        AdbEvent::Pushed { .. } => phase == AdbPhase::Pushing,
        AdbEvent::ShellStarted { .. } => phase == AdbPhase::Starting,
        AdbEvent::ShellOutput { .. } => phase == AdbPhase::Watching,
        AdbEvent::CommandFailed => true,
    }
}

/// What follows an event: the next phase and what to do.
pub open spec fn adb_step(phase: AdbPhase, event: AdbEvent) -> (AdbPhase, Seq<AdbAction>) {
    match (phase, event) {
        (AdbPhase::Searching, AdbEvent::Device { found }) => if found {
            (AdbPhase::Forwarding, seq![AdbAction::Forward])
        } else {
            (AdbPhase::Searching, seq![AdbAction::Delay { millis: 5000 }, AdbAction::FindDevice])
        },
        (AdbPhase::Forwarding, AdbEvent::Forwarded { lines }) => if some_line_holds(
            lines@,
            "error"@,
        ) {
            (AdbPhase::Searching, seq![AdbAction::FindDevice])
        } else {
            (
                AdbPhase::AwaitStart,
                seq![AdbAction::NotifyConnected, AdbAction::AwaitStartOrCancel],
            )
        },
        (AdbPhase::AwaitStart, AdbEvent::Cancelled) => (
            AdbPhase::Searching,
            seq![AdbAction::FindDevice],
        ),
        (AdbPhase::AwaitStart, AdbEvent::StartRequested) => (
            AdbPhase::AwaitSecondStart,
            seq![AdbAction::AwaitStart],
        ),
        (AdbPhase::AwaitSecondStart, AdbEvent::StartRequested) => (
            AdbPhase::Pushing,
            seq![AdbAction::Push],
        ),
        (AdbPhase::Pushing, AdbEvent::Pushed { lines }) => if some_line_holds(
            lines@,
            "/s ("@,
        ) {
            (AdbPhase::Starting, seq![AdbAction::StartShell])
        } else {
            (AdbPhase::Searching, seq![AdbAction::Cancel, AdbAction::FindDevice])
        },
        (AdbPhase::Starting, AdbEvent::ShellStarted { line, alive }) => if text::holds(
            line@,
            "[server] INFO: Device:"@,
        ) && alive {
            (
                AdbPhase::Watching,
                seq![AdbAction::Delay { millis: 500 }, AdbAction::AwaitOutputOrCancel],
            )
        } else {
            (AdbPhase::Searching, seq![AdbAction::KillShell, AdbAction::FindDevice])
        },
        (AdbPhase::Watching, AdbEvent::ShellOutput { len }) => if len == 0 {
            (AdbPhase::Searching, seq![AdbAction::Delay { millis: 5000 }, AdbAction::FindDevice])
        } else {
            (AdbPhase::Watching, seq![AdbAction::AwaitOutputOrCancel])
        },
        (AdbPhase::Watching, AdbEvent::Cancelled) => (
            AdbPhase::Searching,
            seq![AdbAction::KillShell, AdbAction::Delay { millis: 5000 }, AdbAction::FindDevice],
        ),
        (_, AdbEvent::CommandFailed) => (
            AdbPhase::Searching,
            if has_shell(phase) {
                seq![AdbAction::KillShell, AdbAction::Delay { millis: 5000 }, AdbAction::FindDevice]
            } else {
                seq![AdbAction::Delay { millis: 5000 }, AdbAction::FindDevice]
            },
        ),
        _ => (phase, seq![]),
    }
}

fn kill_and_begin_again() -> (r: Vec<AdbAction>)
    ensures
        r@ == seq![
            AdbAction::KillShell,
            AdbAction::Delay { millis: 5000 },
            AdbAction::FindDevice,
        ],
{
    let mut r = pair(AdbAction::KillShell, AdbAction::Delay { millis: 5000 });
    r.push(AdbAction::FindDevice);
    assert(r@ =~= seq![
        AdbAction::KillShell,
        AdbAction::Delay { millis: 5000 },
        AdbAction::FindDevice,
    ]);
    r
}

fn pair(a: AdbAction, b: AdbAction) -> (r: Vec<AdbAction>)
    ensures
        r@ == seq![a, b],
{
    let mut r: Vec<AdbAction> = Vec::new();
    r.push(a);
    r.push(b);
    assert(r@ =~= seq![a, b]);
    r
}

fn single(a: AdbAction) -> (r: Vec<AdbAction>)
    ensures
        r@ == seq![a],
{
    let mut r: Vec<AdbAction> = Vec::new();
    r.push(a);
    assert(r@ =~= seq![a]);
    r
}

/// One step of the task that keeps the server running. It begins with a search for a
/// device and never ends: whatever the commands answer, and where one fails, it starts
/// over or goes on. An event that the phase does not wait for changes nothing.
pub fn tsk_adb_scrcpy(phase: &mut AdbPhase, event: &AdbEvent) -> (r: Vec<AdbAction>)
    ensures
        *final(phase) == adb_step(*old(phase), *event).0,
        r@ == adb_step(*old(phase), *event).1,
{
    match (*phase, event) {
        (AdbPhase::Searching, AdbEvent::Device { found }) => if *found {
            *phase = AdbPhase::Forwarding;
            single(AdbAction::Forward)
        } else {
            pair(AdbAction::Delay { millis: 5000 }, AdbAction::FindDevice)
        },
        (AdbPhase::Forwarding, AdbEvent::Forwarded { lines }) => if forward_succeeded(lines) {
            *phase = AdbPhase::AwaitStart;
            pair(AdbAction::NotifyConnected, AdbAction::AwaitStartOrCancel)
        } else {
            *phase = AdbPhase::Searching;
            single(AdbAction::FindDevice)
        },
        (AdbPhase::AwaitStart, AdbEvent::Cancelled) => {
            *phase = AdbPhase::Searching;
            single(AdbAction::FindDevice)
        },
        (AdbPhase::AwaitStart, AdbEvent::StartRequested) => {
            *phase = AdbPhase::AwaitSecondStart;
            single(AdbAction::AwaitStart)
        },
        (AdbPhase::AwaitSecondStart, AdbEvent::StartRequested) => {
            *phase = AdbPhase::Pushing;
            single(AdbAction::Push)
        },
        (AdbPhase::Pushing, AdbEvent::Pushed { lines }) => if push_succeeded(lines) {
            *phase = AdbPhase::Starting;
            single(AdbAction::StartShell)
        } else {
            *phase = AdbPhase::Searching;
            pair(AdbAction::Cancel, AdbAction::FindDevice)
        },
        (AdbPhase::Starting, AdbEvent::ShellStarted { line, alive }) => if server_runs(
            line.as_str(),
            *alive,
        ) {
            *phase = AdbPhase::Watching;
            pair(AdbAction::Delay { millis: 500 }, AdbAction::AwaitOutputOrCancel)
        } else {
            *phase = AdbPhase::Searching;
            pair(AdbAction::KillShell, AdbAction::FindDevice)
        },
        (AdbPhase::Watching, AdbEvent::ShellOutput { len }) => if *len == 0 {
            *phase = AdbPhase::Searching;
            pair(AdbAction::Delay { millis: 5000 }, AdbAction::FindDevice)
        } else {
            single(AdbAction::AwaitOutputOrCancel)
        },
        (AdbPhase::Watching, AdbEvent::Cancelled) => {
            *phase = AdbPhase::Searching;
            kill_and_begin_again()
        },
        (AdbPhase::Starting, AdbEvent::CommandFailed) | (
            AdbPhase::Watching,
            AdbEvent::CommandFailed,
        ) => {
            *phase = AdbPhase::Searching;
            kill_and_begin_again()
        },
        (_, AdbEvent::CommandFailed) => {
            *phase = AdbPhase::Searching;
            pair(AdbAction::Delay { millis: 5000 }, AdbAction::FindDevice)
        },
        _ => Vec::new(),
    }
}

/// The server is started only right after it has been copied, and copied only after
/// the port was forwarded and recording was asked for.
pub proof fn law_server_start_needs_copy(phase: AdbPhase, event: AdbEvent)
    ensures
        adb_step(phase, event).1.contains(AdbAction::StartShell) ==> phase == AdbPhase::Pushing && (
        event matches AdbEvent::Pushed { lines } && some_line_holds(lines@, "/s ("@)),
        adb_step(phase, event).1.contains(AdbAction::Push) ==> phase == AdbPhase::AwaitSecondStart
            && event is StartRequested,
        adb_step(phase, event).1.contains(AdbAction::NotifyConnected) ==> phase
            == AdbPhase::Forwarding,
{
}

/// The task never ends: whatever event comes of what it waits on, the last thing that it
/// then asks for is the one that brings the next event, and it waits on nothing before
/// that.
pub proof fn law_task_keeps_running(phase: AdbPhase, event: AdbEvent)
    requires
        can_follow(phase, event),
    ensures
        ({
            let (next, actions) = adb_step(phase, event);
            &&& actions.len() > 0
            &&& actions.last() == awaited(next)
            &&& forall|i: int, p: AdbPhase|
                0 <= i < actions.len() - 1 ==> #[trigger] actions[i] != #[trigger] awaited(p)
        }),
{
}

/// Wherever a command fails, the task starts over with the search for a device, and a
/// shell that may run is killed first.
pub proof fn law_failed_command_starts_over(phase: AdbPhase)
    ensures
        ({
            let (next, actions) = adb_step(phase, AdbEvent::CommandFailed);
            &&& next == AdbPhase::Searching
            &&& actions.len() > 0
            &&& actions.last() == AdbAction::FindDevice
            &&& has_shell(phase) <==> actions[0] == AdbAction::KillShell
        }),
{
}

// ---------------------------------------------------------------------------
// What the command line of the server says.

/// Whether an argument begins with the text.
pub open spec fn begins_with(arg: Seq<char>, start: Seq<char>) -> bool {
    arg.len() >= start.len() && arg.take(start.len() as int) == start
}

proof fn lemma_begins_otherwise(arg: Seq<char>, start: Seq<char>, k: int)
    requires
        0 <= k < start.len(),
        arg.len() <= k || arg[k] != start[k],
    ensures
        !begins_with(arg, start),
{
    if begins_with(arg, start) {
        assert(arg.take(start.len() as int)[k] == start[k]);
    }
}

/// Whatever the codec and the parameters are, the server streams sound and pictures and
/// takes input: the command line switches all three on, and apart from the version, which
/// stands as it was given behind the name of the server, no argument is about one of the
/// three again.
pub proof fn law_server_streams_sound_picture_and_input(
    version: Seq<char>,
    audio: AudioStreamingParams,
    video: VideoStreamingParams,
    w: int,
    h: int,
    i: int,
)
    requires
        0 <= i < server_command_spec(version, audio, video, w, h).len(),
    ensures
        ({
            let c = server_command_spec(version, audio, video, w, h);
            &&& c.contains("audio=true"@)
            &&& c.contains("video=true"@)
            &&& c.contains("control=true"@)
            &&& c[3] == "com.genymobile.scrcpy.Server"@ && c[4] == version
            &&& i != 4 && begins_with(c[i], "audio="@) ==> c[i] == "audio=true"@
            &&& i != 4 && begins_with(c[i], "video="@) ==> c[i] == "video=true"@
            &&& i != 4 && begins_with(c[i], "control="@) ==> c[i] == "control=true"@
        }),
{
    let c = server_command_spec(version, audio, video, w, h);
    assert(c[12] == "audio=true"@ && c[13] == "video=true"@ && c[14] == "control=true"@);
    if i != 4 && i != 12 && i != 13 && i != 14 {
        lemma_other_arguments(version, audio, video, w, h, i);
        let a = c[i];
        reveal_strlit("audio=");
        reveal_strlit("video=");
        reveal_strlit("control=");
        lemma_no_stream_argument(a);
    } else if i != 4 {
        reveal_strlit("audio=true");
        reveal_strlit("video=true");
        reveal_strlit("control=true");
        reveal_strlit("audio=");
        reveal_strlit("video=");
        reveal_strlit("control=");
        if i != 12 {
            lemma_begins_otherwise(c[i], "audio="@, 0);
        }
        if i != 13 {
            lemma_begins_otherwise(c[i], "video="@, 0);
        }
        if i != 14 {
            lemma_begins_otherwise(c[i], "control="@, 0);
        }
    }
}

/// An argument is about none of the three streams where it begins otherwise, or goes on
/// behind the word.
spec fn is_about_no_stream(a: Seq<char>) -> bool {
    &&& a.len() > 0
    &&& a[0] == 'a' ==> (a[1] != 'u' || (a.len() > 5 && a[5] == '_'))
    &&& a[0] == 'v' ==> a.len() > 5 && a[5] == '_'
    &&& a[0] == 'c' ==> a[1] != 'o' || a[2] != 'n'
}

proof fn lemma_no_stream_argument(a: Seq<char>)
    requires
        is_about_no_stream(a),
    ensures
        !begins_with(a, "audio="@),
        !begins_with(a, "video="@),
        !begins_with(a, "control="@),
{
    reveal_strlit("audio=");
    reveal_strlit("video=");
    reveal_strlit("control=");
    if a[0] != 'a' {
        lemma_begins_otherwise(a, "audio="@, 0);
    } else if a[1] != 'u' {
        lemma_begins_otherwise(a, "audio="@, 1);
    } else {
        lemma_begins_otherwise(a, "audio="@, 5);
    }
    if a[0] != 'v' {
        lemma_begins_otherwise(a, "video="@, 0);
    } else {
        lemma_begins_otherwise(a, "video="@, 5);
    }
    if a[0] != 'c' {
        lemma_begins_otherwise(a, "control="@, 0);
    } else if a[1] != 'o' {
        lemma_begins_otherwise(a, "control="@, 1);
    } else {
        lemma_begins_otherwise(a, "control="@, 2);
    }
}

proof fn lemma_other_arguments(
    version: Seq<char>,
    audio: AudioStreamingParams,
    video: VideoStreamingParams,
    w: int,
    h: int,
    i: int,
)
    requires
        0 <= i < server_command_spec(version, audio, video, w, h).len(),
        i != 4 && i != 12 && i != 13 && i != 14,
    ensures
        is_about_no_stream(server_command_spec(version, audio, video, w, h)[i]),
{
    reveal_strlit("CLASSPATH=/data/local/tmp/scrcpy-server-manual.jar");
    reveal_strlit("app_process");
    reveal_strlit("/");
    reveal_strlit("com.genymobile.scrcpy.Server");
    reveal_strlit("log_level=info");
    reveal_strlit("raw_stream=false");
    reveal_strlit("send_frame_meta=true");
    reveal_strlit("send_stream_meta=true");
    reveal_strlit("send_dummy_byte=false");
    reveal_strlit("send_device_meta=false");
    reveal_strlit("tunnel_forward=true");
    reveal_strlit("audio=true");
    reveal_strlit("video=true");
    reveal_strlit("control=true");
    reveal_strlit("cleanup=true");
    reveal_strlit("display_ime_policy=local");
    reveal_strlit("stay_awake=true");
    reveal_strlit("keep_active=true");
    reveal_strlit("audio_codec=aac");
    reveal_strlit("audio_codec=raw");
    reveal_strlit("audio_codec_options=aac-profile:int=2");
    reveal_strlit("audio_bit_rate=");
    reveal_strlit("max_size=");
    reveal_strlit("video_codec=h264");
    reveal_strlit("video_codec_options=");
    reveal_strlit("profile:int=1,level:int=512,i-frame-interval:int=");
    reveal_strlit(",low-latency:int=1,max-bframes:int=0");
    reveal_strlit("video_bit_rate=");
    reveal_strlit("new_display=");
    reveal_strlit("x");
    reveal_strlit("max_fps=");
    reveal_strlit("audio=");
    reveal_strlit("video=");
    reveal_strlit("control=");
}

/// Two command lines agree in everything that is no parameter: the first nineteen
/// arguments but the version are the same in all calls.
pub proof fn law_fixed_arguments_never_change(
    version: Seq<char>,
    audio: AudioStreamingParams,
    video: VideoStreamingParams,
    w: int,
    h: int,
    version2: Seq<char>,
    audio2: AudioStreamingParams,
    video2: VideoStreamingParams,
    w2: int,
    h2: int,
    i: int,
)
    requires
        0 <= i < 19,
        i != 4,
    ensures
        server_command_spec(version, audio, video, w, h)[i] == server_command_spec(
            version2,
            audio2,
            video2,
            w2,
            h2,
        )[i],
{
}

/// Two calls that differ only in the codec of the sound differ only in the arguments that
/// name it: AAC has one argument more, its options, right behind the codec. All other codecs
/// give the same command line, raw sound.
pub proof fn law_codec_changes_only_its_arguments(
    version: Seq<char>,
    audio: AudioStreamingParams,
    other: AudioStreamingParams,
    video: VideoStreamingParams,
    w: int,
    h: int,
    i: int,
)
    requires
        audio.bitrate == other.bitrate,
        audio.codec == MediaCodec::AUDIO_AAC_LC,
    ensures
        ({
            let a = server_command_spec(version, audio, video, w, h);
            let b = server_command_spec(version, other, video, w, h);
            &&& other.codec == MediaCodec::AUDIO_AAC_LC ==> a == b
            &&& other.codec != MediaCodec::AUDIO_AAC_LC ==> {
                &&& a.len() == b.len() + 1
                &&& 0 <= i < 19 ==> a[i] == b[i]
                &&& a[19] == "audio_codec=aac"@ && b[19] == "audio_codec=raw"@
                &&& a[20] == "audio_codec_options=aac-profile:int=2"@
                &&& 20 <= i < b.len() ==> a[i + 1] == b[i]
            }
        }),
{
}

/// The parameters of the streams, counted from the end of the command line. Each stands
/// behind its name in decimal form: the bit rate of the sound, the width of the picture,
/// then, two places on, the bit rate of the picture, the size and density of the display,
/// and the frame rate.
pub proof fn law_parameters_stand_behind_their_names(
    version: Seq<char>,
    audio: AudioStreamingParams,
    video: VideoStreamingParams,
    w: int,
    h: int,
)
    ensures
        ({
            let c = server_command_spec(version, audio, video, w, h);
            let n = c.len() as int;
            &&& n == 27 || n == 28
            &&& c[n - 7] == "audio_bit_rate="@ + text::decimal(audio.bitrate as int)
            &&& c[n - 6] == "max_size="@ + text::decimal(video.res_w as int)
            &&& c[n - 5] == "video_codec=h264"@
            &&& c[n - 3] == "video_bit_rate="@ + text::decimal(video.bitrate as int)
            &&& c[n - 2] == "new_display="@ + text::decimal(w) + "x"@ + text::decimal(h) + "/"@
                + text::decimal(video.dpi as int)
            &&& c[n - 1] == "max_fps="@ + text::decimal(video.fps as int)
        }),
{
}

/// Each parameter changes its own argument only: two calls that agree in a parameter agree
/// in the argument that names it, whatever else they differ in.
pub proof fn law_parameters_do_not_mix(
    version: Seq<char>,
    audio: AudioStreamingParams,
    video: VideoStreamingParams,
    w: int,
    h: int,
    version2: Seq<char>,
    audio2: AudioStreamingParams,
    video2: VideoStreamingParams,
    w2: int,
    h2: int,
)
    ensures
        ({
            let a = server_command_spec(version, audio, video, w, h);
            let b = server_command_spec(version2, audio2, video2, w2, h2);
            let n = a.len() as int;
            let m = b.len() as int;
            &&& audio.bitrate == audio2.bitrate ==> a[n - 7] == b[m - 7]
            &&& video.res_w == video2.res_w ==> a[n - 6] == b[m - 6]
            &&& a[n - 5] == b[m - 5]
            &&& video.fps == video2.fps ==> a[n - 4] == b[m - 4] && a[n - 1] == b[m - 1]
            &&& video.bitrate == video2.bitrate ==> a[n - 3] == b[m - 3]
            &&& w == w2 && h == h2 && video.dpi == video2.dpi ==> a[n - 2] == b[m - 2]
            &&& (audio.codec == MediaCodec::AUDIO_AAC_LC) == (audio2.codec
                == MediaCodec::AUDIO_AAC_LC) ==> n == m && a[19] == b[19]
        }),
{
}

/// The options of the video codec hold the frame rate as the interval of key frames, in
/// decimal form, and forbid frames that refer to later ones.
pub proof fn law_codec_options_hold_the_frame_rate(fps: int)
    ensures
        text::holds(
            video_codec_options(fps),
            "i-frame-interval:int="@ + text::decimal(fps) + ",low-latency:int=1"@,
        ),
        text::holds(video_codec_options(fps), "profile:int=1,"@),
        text::holds(video_codec_options(fps), ",max-bframes:int=0"@),
{
    reveal_strlit("profile:int=1,level:int=512,i-frame-interval:int=");
    reveal_strlit("i-frame-interval:int=");
    reveal_strlit(",low-latency:int=1,max-bframes:int=0");
    reveal_strlit(",low-latency:int=1");
    reveal_strlit("profile:int=1,");
    reveal_strlit(",max-bframes:int=0");
    let s = video_codec_options(fps);
    let d = text::decimal(fps);
    let a = "i-frame-interval:int="@ + d + ",low-latency:int=1"@;
    assert(s.subrange(28, 28int + a.len()) =~= a);
    assert(text::occurs_at(s, a, 28));
    assert(s.subrange(0, 14) =~= "profile:int=1,"@);
    assert(text::occurs_at(s, "profile:int=1,"@, 0));
    let at: int = 67int + d.len();
    assert(s.subrange(at, at + 18) =~= ",max-bframes:int=0"@);
    assert(text::occurs_at(s, ",max-bframes:int=0"@, at));
}

/// The port that is forwarded is the one that was asked for, to the same socket always, and
/// the theme that is asked for decides one word only.
pub proof fn law_arguments_of_the_other_commands(port: int, port2: int, night: bool)
    ensures
        forward_args_spec(port).len() == 2,
        forward_args_spec(port)[0] == "tcp:"@ + text::decimal(port),
        forward_args_spec(port)[1] == forward_args_spec(port2)[1],
        theme_command_spec(night).len() == 4,
        theme_command_spec(night)[3] == if night {
            "yes"@
        } else {
            "no"@
        },
        forall|i: int|
            0 <= i < 3 ==> #[trigger] theme_command_spec(true)[i] == theme_command_spec(false)[i],
{
}

/// Whether a text stands in one of the lines, in any place of any line.
pub proof fn law_any_line_counts(lines: Seq<String>, needle: Seq<char>, i: int, k: int)
    requires
        0 <= i < lines.len(),
        0 <= k,
        k + needle.len() <= lines[i]@.len(),
        lines[i]@.subrange(k, k + needle.len()) == needle,
    ensures
        some_line_holds(lines, needle),
{
    assert(text::occurs_at(lines[i]@, needle, k));
}

/// How the task goes on. It forwards the port of a device that was found, waits for two
/// requests where no line of the answer speaks of an error, copies the server, starts it
/// where some line tells the speed of the copy, and follows its output as long as there is
/// any where its first line names the device and its shell lives. Everything else leads back
/// to the search.
pub proof fn law_task_goes_on(phase: AdbPhase, event: AdbEvent)
    ensures
        ({
            let (next, actions) = adb_step(phase, event);
            &&& phase == AdbPhase::Searching ==> (event matches AdbEvent::Device { found } ==> next
                == if found {
                AdbPhase::Forwarding
            } else {
                AdbPhase::Searching
            })
            &&& phase == AdbPhase::Forwarding ==> (event matches AdbEvent::Forwarded { lines } ==> (
            next == AdbPhase::AwaitStart <==> forall|i: int|
                0 <= i < lines@.len() ==> !text::holds((#[trigger] lines@[i])@, "error"@)))
            &&& phase == AdbPhase::Forwarding && event is Forwarded ==> (next
                == AdbPhase::AwaitStart <==> actions.contains(AdbAction::NotifyConnected)) && (next
                == AdbPhase::AwaitStart || next == AdbPhase::Searching)
            &&& phase == AdbPhase::AwaitStart && event is StartRequested ==> next
                == AdbPhase::AwaitSecondStart
            &&& phase == AdbPhase::AwaitStart && event is Cancelled ==> next == AdbPhase::Searching
            &&& phase == AdbPhase::AwaitSecondStart && event is StartRequested ==> next
                == AdbPhase::Pushing
            &&& phase == AdbPhase::Pushing ==> (event matches AdbEvent::Pushed { lines } ==> (next
                == AdbPhase::Starting <==> exists|i: int|
                0 <= i < lines@.len() && text::holds((#[trigger] lines@[i])@, "/s ("@)))
            &&& phase == AdbPhase::Pushing && event is Pushed && next != AdbPhase::Starting ==> next
                == AdbPhase::Searching && actions[0] == AdbAction::Cancel
            &&& phase == AdbPhase::Starting ==> (event matches AdbEvent::ShellStarted { line, alive }
                ==> (next == AdbPhase::Watching <==> alive && text::holds(
                line@,
                "[server] INFO: Device:"@,
            )))
            &&& phase == AdbPhase::Starting && event is ShellStarted && next != AdbPhase::Watching
                ==> next == AdbPhase::Searching && actions[0] == AdbAction::KillShell
            &&& phase == AdbPhase::Starting && event is ShellStarted && next == AdbPhase::Watching
                ==> actions[0] == (AdbAction::Delay { millis: 500 })
            &&& phase == AdbPhase::Watching ==> (event matches AdbEvent::ShellOutput { len } ==> (
            next == AdbPhase::Watching <==> len > 0))
            &&& phase == AdbPhase::Watching && event is Cancelled ==> next == AdbPhase::Searching
                && actions[0] == AdbAction::KillShell
            &&& !can_follow(phase, event) ==> next == phase && actions.len() == 0
        }),
{
    let (next, actions) = adb_step(phase, event);
    if actions.len() == 2 {
        assert(actions[0] == seq![actions[0], actions[1]][0]);
    }
}

/// One line that speaks of an error is enough for a port not to be forwarded, and one that
/// names a speed for a file to be copied, wherever it stands and whatever stands around the
/// words; without any line a port is forwarded and no file is copied.
pub proof fn law_answers_of_the_bridge(
    lines: Seq<String>,
    i: int,
    before: Seq<char>,
    after: Seq<char>,
)
    ensures
        0 <= i < lines.len() && lines[i]@ == before + "error"@ + after ==> !is_forwarded(lines),
        0 <= i < lines.len() && lines[i]@ == before + "/s ("@ + after ==> is_pushed(lines),
        (forall|k: int| 0 <= k < lines.len() ==> !text::holds((#[trigger] lines[k])@, "error"@))
            ==> is_forwarded(lines),
        (forall|k: int| 0 <= k < lines.len() ==> !text::holds((#[trigger] lines[k])@, "/s ("@))
            ==> !is_pushed(lines),
{
    text_laws::law_holding_a_text(before, "error"@, after);
    text_laws::law_holding_a_text(before, "/s ("@, after);
    if 0 <= i < lines.len() {
        assert(lines[i]@ == lines[i]@);
    }
}

/// A shell that has ended neither runs the server nor refuses a theme. One that is alive runs
/// the server where it names the device, and has switched the theme where it names the night
/// mode.
pub proof fn law_answers_of_the_shell(line: Seq<char>, before: Seq<char>, after: Seq<char>)
    ensures
        !is_running(line, false) && !refuses_theme(line, false),
        is_running(before + "[server] INFO: Device:"@ + after, true),
        !refuses_theme(before + "Night mode:"@ + after, true),
        !text::holds(line, "[server] INFO: Device:"@) ==> !is_running(line, true),
        !text::holds(line, "Night mode:"@) ==> refuses_theme(line, true),
{
    text_laws::law_holding_a_text(before, "[server] INFO: Device:"@, after);
    text_laws::law_holding_a_text(before, "Night mode:"@, after);
}

} // verus!
