use aa_mirror::channel_manager::{endpoint_reader, Packet};
use aa_mirror::scrcpy_media::{
    keep_printable, make_packets, parse_header, AckWindow, AudioServer, FrameStep,
    MediaReadError, ScrcpyMediaHeader, ScrcpyMediaReader, ScrcpySessionMeta,
    ScrcpyVideoCodecInfo, ServerStep, VideoServer,
};

fn reader_with(bytes: &[u8]) -> ScrcpyMediaReader {
    let mut r = ScrcpyMediaReader::new();
    r.read_exact_into_buf(bytes.len());
    if !bytes.is_empty() {
        assert_eq!(r.received(bytes), Ok(()));
    }
    r
}

fn header(size: usize, config: bool) -> ScrcpyMediaHeader {
    ScrcpyMediaHeader { size, timestamp: 0x0102, config, keyframe: false }
}

#[test]
fn headers_of_frames() {
    let h = parse_header(&[0, 0, 0, 0, 0, 0, 1, 2, 0, 0, 1, 0]);
    assert_eq!(
        h,
        ScrcpyMediaHeader { size: 256, timestamp: 258, config: false, keyframe: false }
    );
    let c = parse_header(&[0x40, 0, 0, 0, 0, 0, 0, 0, 0, 0, 0, 9]);
    assert!(c.config && !c.keyframe);
    assert_eq!((c.timestamp, c.size), (0, 9));
    let k = parse_header(&[0xA0, 0, 0, 0, 0, 0, 0, 5, 0, 0, 0, 9]);
    assert!(k.keyframe && !k.config);
    assert_eq!(k.timestamp, 0x2000_0000_0000_0005);
}

#[test]
fn a_part_is_read_in_pieces() {
    let mut r = ScrcpyMediaReader::new();
    assert_eq!(r.to_read(), 0);
    r.read_exact_into_buf(70_000);
    assert_eq!(r.to_read(), 65_536);
    assert_eq!(r.received(&[1; 65_000]), Ok(()));
    assert_eq!(r.to_read(), 5_000);
    assert_eq!(r.received(&[]), Err(MediaReadError::UnexpectedEof));
    assert_eq!(r.received(&[2; 5_000]), Ok(()));
    assert_eq!(r.to_read(), 0);
    let chunks = r.read_chunks(69_999);
    assert_eq!(chunks.len(), 2);
    assert_eq!(chunks[0].len(), 69_999);
    assert_eq!(chunks[1][..], [2]);
    r.read_exact_into_buf(1);
    assert_eq!(r.to_read(), 1);
}

#[test]
fn chunks_keep_every_byte() {
    let data: Vec<u8> = (0..10).collect();
    let r = reader_with(&data);
    for max in 1..12 {
        let chunks = r.read_chunks(max);
        assert_eq!(chunks.len(), (10 + max - 1) / max);
        let mut all: Vec<u8> = Vec::new();
        for c in &chunks {
            assert!(!c.is_empty() && c.len() <= max);
            all.extend_from_slice(c);
        }
        assert_eq!(all, data);
    }
    assert!(reader_with(&[]).read_chunks(5).is_empty());
}

#[test]
fn the_header_comes_from_the_buffer() {
    let r = reader_with(&[0, 0, 0, 0, 0, 0, 0, 7, 0, 0, 0, 3]);
    assert_eq!((r.header().timestamp, r.header().size), (7, 3));
}

#[test]
fn names_of_codecs() {
    assert_eq!(reader_with(b"h264").read_video_codec_info().codec_id, "h264");
    assert_eq!(reader_with(&[0, b'r', b'a', b'w']).read_audio_codec_info(), "raw");
    // Bytes that are no text leave nothing visible.
    assert_eq!(reader_with(&[0xFF, b'a', 0xFE, b'c']).read_audio_codec_info(), "ac");
    assert_eq!(keep_printable(&['a', '\n', ' ', '~', '\u{7f}', 'é']), "a ~");
}

#[test]
fn the_video_session() {
    let r = reader_with(&[0x80, 0, 0, 1, 0, 0, 7, 0x80, 0, 0, 4, 0x38]);
    assert_eq!(
        r.read_video_session_info(),
        ScrcpySessionMeta { flags: 0x8000_0001, width: 1920, height: 1080 }
    );
}

#[test]
fn a_small_frame_is_one_packet() {
    let chunks = reader_with(&[9, 8]).read_chunks(100);
    let p = make_packets(3, &header(2, false), &chunks);
    assert_eq!(p.len(), 1);
    assert_eq!((p[0].channel, p[0].flags, p[0].final_length), (3, 11, None));
    assert_eq!(p[0].payload, vec![0, 0, 0, 0, 0, 0, 0, 0, 1, 2, 9, 8]);
    let c = make_packets(3, &header(2, true), &chunks);
    assert_eq!(c[0].payload, vec![0, 1, 9, 8]);
}

#[test]
fn a_large_frame_is_fragmented() {
    let data: Vec<u8> = (0..7).collect();
    let chunks = reader_with(&data).read_chunks(3);
    let p = VideoServer::new(3).packets(&header(7, false), &chunks);
    let flags: Vec<u8> = p.iter().map(|x| x.flags).collect();
    assert_eq!(flags, vec![9, 8, 10]);
    assert_eq!(p[0].final_length, Some(17));
    assert_eq!((p[1].final_length, p[2].final_length), (None, None));
    let mut all: Vec<u8> = Vec::new();
    for x in &p {
        all.extend_from_slice(&x.payload);
    }
    assert_eq!(all, vec![0, 0, 0, 0, 0, 0, 0, 0, 1, 2, 0, 1, 2, 3, 4, 5, 6]);
    let c = AudioServer::new(4).packets(&header(7, true), &chunks);
    assert_eq!(c[0].final_length, Some(9));
    assert_eq!(c[0].channel, 4);
}

#[test]
fn packets_of_a_frame_survive_the_transfer() {
    let chunks = reader_with(&[5; 40]).read_chunks(16);
    let sent = make_packets(3, &header(40, false), &chunks);
    let mut stream = std::collections::VecDeque::new();
    for p in &sent {
        stream.extend(p.transmit());
    }
    let got: Vec<Packet> = endpoint_reader(&mut stream);
    assert_eq!(got.len(), sent.len());
    for i in 0..sent.len() {
        assert_eq!(got[i].payload, sent[i].payload);
        assert_eq!(got[i].final_length, sent[i].final_length);
    }
}

#[test]
fn the_window_holds_so_many_frames() {
    let mut w = AckWindow::new(2);
    assert!(w.take_slot());
    assert!(w.take_slot());
    assert!(!w.take_slot());
    w.release();
    assert!(w.take_slot());
    w.release();
    w.release();
    w.release();
    assert_eq!(w.outstanding, 0);
    assert_eq!(AckWindow::new(0).capacity, 1);
}

#[test]
fn unacknowledged_frames_are_bounded() {
    let mut v = VideoServer::new(3).start(1);
    assert_eq!(v.flow.on_frame(&header(0, false)), FrameStep::Skip);
    assert_eq!(v.flow.on_frame(&header(5, true)), FrameStep::Send);
    assert_eq!(v.flow.on_frame(&header(5, false)), FrameStep::Send);
    assert_eq!(v.flow.on_frame(&header(5, false)), FrameStep::AwaitAck);
    assert_eq!(v.flow.on_frame(&header(5, true)), FrameStep::Send);
    v.ack();
    assert_eq!(v.flow.on_frame(&header(5, false)), FrameStep::Send);
    v.set_paused(true);
    assert_eq!(v.flow.on_frame(&header(5, true)), FrameStep::Skip);
    v.set_paused(false);
    assert_eq!(v.flow.on_frame(&header(5, false)), FrameStep::AwaitAck);
}

#[test]
fn without_a_limit_frames_always_go() {
    let mut a = AudioServer::new(4).start(0);
    assert!(a.flow.ignore_ack);
    for _ in 0..5 {
        assert_eq!(a.flow.on_frame(&header(5, false)), FrameStep::Send);
    }
    a.ack();
    assert_eq!(a.flow.window.outstanding, 0);
    a.set_paused(true);
    assert_eq!(a.flow.on_frame(&header(5, false)), FrameStep::Skip);
}

#[test]
fn which_codecs_the_servers_take() {
    let v = VideoServer::new(3);
    let info = |s: &str| ScrcpyVideoCodecInfo { codec_id: s.to_string() };
    assert_eq!(v.on_codec_info(Some(&info("h264"))), ServerStep::Continue);
    assert_eq!(v.on_codec_info(Some(&info("h265"))), ServerStep::Stop);
    assert_eq!(v.on_codec_info(None), ServerStep::CancelAndStop);
    let meta = ScrcpySessionMeta { flags: 0, width: 1, height: 1 };
    assert_eq!(v.on_session_info(Some(&meta)), ServerStep::Continue);
    assert_eq!(v.on_session_info(None), ServerStep::Stop);
    let a = AudioServer::new(4);
    assert_eq!(a.on_codec_info(Some("raw")), ServerStep::Continue);
    assert_eq!(a.on_codec_info(Some("aac")), ServerStep::Continue);
    assert_eq!(a.on_codec_info(Some("opus")), ServerStep::CancelAndStop);
    assert_eq!(a.on_codec_info(None), ServerStep::CancelAndStop);
}
