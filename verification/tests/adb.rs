use aa_mirror::aa_services::{AudioStreamingParams, MediaCodec, VideoStreamingParams};
use aa_mirror::scrcpy_adb::{
    forward_args, forward_succeeded, push_args, push_succeeded, server_command, server_runs,
    theme_command, theme_failed, tsk_adb_scrcpy, AdbAction, AdbEvent, AdbPhase,
};

fn lines(v: &[&str]) -> Vec<String> {
    v.iter().map(|s| s.to_string()).collect()
}

#[test]
fn arguments_of_the_commands() {
    assert_eq!(forward_args(27183), lines(&["tcp:27183", "localabstract:scrcpy"]));
    assert_eq!(
        push_args(),
        lines(&["/etc/aa-mirror-rs/scrcpy-server", "/data/local/tmp/scrcpy-server-manual.jar"])
    );
    assert_eq!(theme_command(true), lines(&["cmd", "uimode", "night", "yes"]));
    assert_eq!(theme_command(false), lines(&["cmd", "uimode", "night", "no"]));
}

#[test]
fn the_command_line_of_the_server() {
    let video = VideoStreamingParams {
        bitrate: 8_000_000,
        res_w: 1280,
        res_h: 720,
        fps: 60,
        dpi: 160,
        sid: 3,
        max_unack: 0,
    };
    let audio = AudioStreamingParams {
        codec: MediaCodec::AUDIO_AAC_LC,
        bitrate: 48_000,
        sid: 4,
        max_unack: 0,
    };
    let options = "video_codec_options=profile:int=1,level:int=512,i-frame-interval:int=60,\
                   low-latency:int=1,max-bframes:int=0";
    assert_eq!(
        server_command("3.3.4", &audio, &video, 1920, 1080),
        lines(&[
            "CLASSPATH=/data/local/tmp/scrcpy-server-manual.jar",
            "app_process",
            "/",
            "com.genymobile.scrcpy.Server",
            "3.3.4",
            "log_level=info",
            "raw_stream=false",
            "send_frame_meta=true",
            "send_stream_meta=true",
            "send_dummy_byte=false",
            "send_device_meta=false",
            "tunnel_forward=true",
            "audio=true",
            "video=true",
            "control=true",
            "cleanup=true",
            "display_ime_policy=local",
            "stay_awake=true",
            "keep_active=true",
            "audio_codec=aac",
            "audio_codec_options=aac-profile:int=2",
            "audio_bit_rate=48000",
            "max_size=1280",
            "video_codec=h264",
            options,
            "video_bit_rate=8000000",
            "new_display=1920x1080/160",
            "max_fps=60",
        ])
    );
    let pcm = AudioStreamingParams { codec: MediaCodec::AUDIO_PCM, ..audio };
    let command = server_command("3.3.4", &pcm, &video, 1920, 1080);
    assert_eq!(command.len(), 27);
    assert_eq!(command[19], "audio_codec=raw");
    assert_eq!(command[20], "audio_bit_rate=48000");
}

#[test]
fn answers_of_the_commands() {
    assert!(forward_succeeded(&lines(&[])));
    assert!(forward_succeeded(&lines(&["27183"])));
    assert!(!forward_succeeded(&lines(&["ok", "adb: error: no device"])));
    assert!(push_succeeded(&lines(&["1 file pushed. 20.1 MB/s (90980 bytes in 0.004s)"])));
    assert!(!push_succeeded(&lines(&["failed"])));
    assert!(!push_succeeded(&lines(&[])));
    assert!(server_runs("[server] INFO: Device: [Google] Pixel", true));
    assert!(!server_runs("[server] INFO: Device: [Google] Pixel", false));
    assert!(!server_runs("Aborted", true));
    assert!(theme_failed("denied", true));
    assert!(!theme_failed("denied", false));
    assert!(!theme_failed("Night mode: yes", true));
}

#[test]
fn the_task_from_a_device_to_a_running_server() {
    let mut phase = AdbPhase::Searching;
    let mut step = |event: AdbEvent| {
        let actions = tsk_adb_scrcpy(&mut phase, &event);
        (phase, actions)
    };
    assert_eq!(
        step(AdbEvent::Device { found: false }),
        (
            AdbPhase::Searching,
            vec![AdbAction::Delay { millis: 5000 }, AdbAction::FindDevice]
        )
    );
    assert_eq!(
        step(AdbEvent::Device { found: true }),
        (AdbPhase::Forwarding, vec![AdbAction::Forward])
    );
    assert_eq!(
        step(AdbEvent::Forwarded { lines: vec![] }),
        (
            AdbPhase::AwaitStart,
            vec![AdbAction::NotifyConnected, AdbAction::AwaitStartOrCancel]
        )
    );
    assert_eq!(
        step(AdbEvent::StartRequested),
        (AdbPhase::AwaitSecondStart, vec![AdbAction::AwaitStart])
    );
    assert_eq!(step(AdbEvent::StartRequested), (AdbPhase::Pushing, vec![AdbAction::Push]));
    assert_eq!(
        step(AdbEvent::Pushed { lines: lines(&["1 MB/s (x)"]) }),
        (AdbPhase::Starting, vec![AdbAction::StartShell])
    );
    assert_eq!(
        step(AdbEvent::ShellStarted {
            line: "[server] INFO: Device: x".to_string(),
            alive: true
        }),
        (
            AdbPhase::Watching,
            vec![AdbAction::Delay { millis: 500 }, AdbAction::AwaitOutputOrCancel]
        )
    );
    assert_eq!(
        step(AdbEvent::ShellOutput { len: 4 }),
        (AdbPhase::Watching, vec![AdbAction::AwaitOutputOrCancel])
    );
    assert_eq!(
        step(AdbEvent::Cancelled),
        (
            AdbPhase::Searching,
            vec![
                AdbAction::KillShell,
                AdbAction::Delay { millis: 5000 },
                AdbAction::FindDevice
            ]
        )
    );
}

#[test]
fn the_task_begins_again_after_a_failure() {
    let mut phase = AdbPhase::Forwarding;
    let event = AdbEvent::Forwarded { lines: lines(&["error"]) };
    assert_eq!(tsk_adb_scrcpy(&mut phase, &event), vec![AdbAction::FindDevice]);
    phase = AdbPhase::AwaitStart;
    assert_eq!(
        tsk_adb_scrcpy(&mut phase, &AdbEvent::Cancelled),
        vec![AdbAction::FindDevice]
    );
    phase = AdbPhase::Pushing;
    assert_eq!(
        tsk_adb_scrcpy(&mut phase, &AdbEvent::Pushed { lines: vec![] }),
        vec![AdbAction::Cancel, AdbAction::FindDevice]
    );
    phase = AdbPhase::Starting;
    let event = AdbEvent::ShellStarted { line: "x".to_string(), alive: true };
    assert_eq!(
        tsk_adb_scrcpy(&mut phase, &event),
        vec![AdbAction::KillShell, AdbAction::FindDevice]
    );
    phase = AdbPhase::Watching;
    assert_eq!(
        tsk_adb_scrcpy(&mut phase, &AdbEvent::ShellOutput { len: 0 }),
        vec![AdbAction::Delay { millis: 5000 }, AdbAction::FindDevice]
    );
    assert_eq!(phase, AdbPhase::Searching);
    assert!(tsk_adb_scrcpy(&mut phase, &AdbEvent::StartRequested).is_empty());
    assert_eq!(phase, AdbPhase::Searching);
}

#[test]
fn a_failed_command_starts_the_task_over() {
    let again = vec![AdbAction::Delay { millis: 5000 }, AdbAction::FindDevice];
    for start in [
        AdbPhase::Searching,
        AdbPhase::Forwarding,
        AdbPhase::AwaitStart,
        AdbPhase::AwaitSecondStart,
        AdbPhase::Pushing,
    ] {
        let mut phase = start;
        assert_eq!(tsk_adb_scrcpy(&mut phase, &AdbEvent::CommandFailed), again);
        assert_eq!(phase, AdbPhase::Searching);
    }
    for start in [AdbPhase::Starting, AdbPhase::Watching] {
        let mut phase = start;
        assert_eq!(
            tsk_adb_scrcpy(&mut phase, &AdbEvent::CommandFailed),
            vec![
                AdbAction::KillShell,
                AdbAction::Delay { millis: 5000 },
                AdbAction::FindDevice
            ]
        );
        assert_eq!(phase, AdbPhase::Searching);
    }
}
