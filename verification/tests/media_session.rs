use aa_mirror::media_session::{MediaAction, MediaKind, MediaPhase, MediaSession};
use aa_mirror::scrcpy_media::{
    AckWindow, MediaFlow, ScrcpyMediaHeader, ScrcpyMediaReader, ServerStep,
};

fn flow(max_unack: u8) -> MediaFlow {
    MediaFlow { ignore_ack: false, window: AckWindow::new(max_unack), paused: false }
}

fn begin(kind: MediaKind) -> (MediaSession, ScrcpyMediaReader) {
    let mut reader = ScrcpyMediaReader::new();
    let session = MediaSession::begin(kind, 3, &mut reader);
    assert_eq!(reader.to_read(), 4);
    (session, reader)
}

fn read(
    session: &mut MediaSession,
    reader: &mut ScrcpyMediaReader,
    flow: &mut MediaFlow,
    bytes: &[u8],
) -> MediaAction {
    assert_eq!(reader.to_read(), bytes.len());
    if !bytes.is_empty() {
        assert_eq!(reader.received(bytes), Ok(()));
    }
    session.step(reader, flow, 4)
}

/// A session that has read what describes the stream.
fn streaming(kind: MediaKind, flow: &mut MediaFlow) -> (MediaSession, ScrcpyMediaReader) {
    let (mut s, mut r) = begin(kind);
    match kind {
        MediaKind::Video => {
            assert!(matches!(read(&mut s, &mut r, flow, b"h264"), MediaAction::Read));
            assert_eq!(s.phase, MediaPhase::Session);
            assert!(matches!(read(&mut s, &mut r, flow, &[0; 12]), MediaAction::Read));
        }
        MediaKind::Audio => {
            assert!(matches!(read(&mut s, &mut r, flow, b"\0aac"), MediaAction::Read));
        }
    }
    assert_eq!(s.phase, MediaPhase::Header);
    (s, r)
}

const HEADER_OF_FIVE: [u8; 12] = [0, 0, 0, 0, 0, 0, 0, 9, 0, 0, 0, 5];

#[test]
fn a_frame_is_read_and_sent() {
    for kind in [MediaKind::Video, MediaKind::Audio] {
        let mut f = flow(2);
        let (mut s, mut r) = streaming(kind, &mut f);
        assert!(matches!(read(&mut s, &mut r, &mut f, &HEADER_OF_FIVE), MediaAction::Read));
        let header =
            ScrcpyMediaHeader { size: 5, timestamp: 9, config: false, keyframe: false };
        assert_eq!(s.phase, MediaPhase::Frame { header });
        match read(&mut s, &mut r, &mut f, &[1, 2, 3, 4, 5]) {
            MediaAction::Send { packets } => {
                assert_eq!(packets.len(), 2);
                assert_eq!((packets[0].channel, packets[0].flags), (3, 9));
                assert_eq!(packets[0].final_length, Some(15));
                assert_eq!(
                    packets[0].payload,
                    vec![0, 0, 0, 0, 0, 0, 0, 0, 0, 9, 1, 2, 3, 4]
                );
                assert_eq!((packets[1].flags, packets[1].final_length), (10, None));
                assert_eq!(packets[1].payload, vec![5]);
            }
            other => panic!("{:?}", other),
        }
        assert_eq!(s.phase, MediaPhase::Header);
        assert_eq!(f.window.outstanding, 1);
        assert_eq!(r.to_read(), 12);
    }
}

#[test]
fn codecs_that_are_not_taken_end_the_server() {
    let mut f = flow(2);
    let (mut s, mut r) = begin(MediaKind::Video);
    assert!(matches!(read(&mut s, &mut r, &mut f, b"h265"), MediaAction::Stop));
    assert_eq!(s.phase, MediaPhase::Ended);
    let (mut s, mut r) = begin(MediaKind::Audio);
    assert!(matches!(read(&mut s, &mut r, &mut f, b"opus"), MediaAction::CancelAndStop));
    assert_eq!(s.phase, MediaPhase::Ended);
    let (mut s, mut r) = begin(MediaKind::Audio);
    assert!(matches!(read(&mut s, &mut r, &mut f, b"\0raw"), MediaAction::Read));
    let (mut s, mut r) = begin(MediaKind::Audio);
    assert!(matches!(read(&mut s, &mut r, &mut f, b"h264"), MediaAction::CancelAndStop));
}

#[test]
fn empty_and_paused_frames_are_skipped() {
    let mut f = flow(2);
    let (mut s, mut r) = streaming(MediaKind::Video, &mut f);
    assert!(matches!(read(&mut s, &mut r, &mut f, &[0; 12]), MediaAction::Read));
    assert!(matches!(read(&mut s, &mut r, &mut f, &[]), MediaAction::Read));
    assert_eq!(s.phase, MediaPhase::Header);
    f.paused = true;
    read(&mut s, &mut r, &mut f, &HEADER_OF_FIVE);
    assert!(matches!(read(&mut s, &mut r, &mut f, &[7; 5]), MediaAction::Read));
    assert_eq!(s.phase, MediaPhase::Header);
    assert_eq!(f.window.outstanding, 0);
}

#[test]
fn a_waiting_frame_goes_out_once() {
    let mut f = flow(1);
    let (mut s, mut r) = streaming(MediaKind::Video, &mut f);
    for _ in 0..2 {
        read(&mut s, &mut r, &mut f, &HEADER_OF_FIVE);
        let _ = read(&mut s, &mut r, &mut f, &[7; 5]);
    }
    assert!(matches!(s.phase, MediaPhase::Slot { .. }));
    assert!(matches!(s.step(&mut r, &mut f, 8), MediaAction::AwaitAck));
    f.window.release();
    f.paused = true;
    match s.step(&mut r, &mut f, 8) {
        MediaAction::Send { packets } => {
            assert_eq!(packets.len(), 1);
            assert_eq!(packets[0].payload[10..], [7; 5]);
        }
        other => panic!("{:?}", other),
    }
    assert_eq!(s.phase, MediaPhase::Header);
    assert_eq!(f.window.outstanding, 1);
}

#[test]
fn streams_that_end() {
    let mut f = flow(1);
    for kind in [MediaKind::Video, MediaKind::Audio] {
        let (mut s, _) = begin(kind);
        assert_eq!(s.read_failed(), ServerStep::CancelAndStop);
        assert_eq!(s.phase, MediaPhase::Ended);
        let (mut s, mut r) = streaming(kind, &mut f);
        read(&mut s, &mut r, &mut f, &HEADER_OF_FIVE);
        assert_eq!(s.read_failed(), ServerStep::Stop);
        assert_eq!(s.phase, MediaPhase::Ended);
        let (mut s, _) = streaming(kind, &mut f);
        assert_eq!(s.read_failed(), ServerStep::Stop);
    }
    let (mut s, mut r) = begin(MediaKind::Video);
    read(&mut s, &mut r, &mut f, b"h264");
    assert_eq!(s.read_failed(), ServerStep::Stop);
}
