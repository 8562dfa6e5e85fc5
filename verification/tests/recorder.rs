use aa_mirror::aa_services::{AudioStreamingParams, MediaCodec, VideoStreamingParams};
use aa_mirror::recorder::{record_audio_packet, record_video_packet};

#[test]
fn video_parameters_in_postcard_form() {
    let p = VideoStreamingParams {
        bitrate: 4_000_000,
        res_w: 800,
        res_h: 480,
        fps: -1,
        dpi: 64,
        sid: 200,
        max_unack: 300,
    };
    let pkt = record_video_packet(3, &p);
    assert_eq!((pkt.channel, pkt.flags, pkt.final_length), (3, 3, None));
    // 8000000, 1600, 960, 1, 128 in groups of seven bits, the byte, 300.
    assert_eq!(
        pkt.payload,
        vec![
            0xF0, 0x00, 0x00, 0x03, 0x80, 0xA4, 0xE8, 0x03, 0xC0, 0x0C, 0xC0, 0x07, 0x01, 0x80,
            0x01, 200, 0xAC, 0x02
        ]
    );
}

#[test]
fn audio_parameters_in_postcard_form() {
    let p = AudioStreamingParams {
        codec: MediaCodec::AUDIO_AAC_LC_ADTS,
        bitrate: 48_000,
        sid: 4,
        max_unack: 0,
    };
    let pkt = record_audio_packet(4, &p);
    assert_eq!(
        pkt.payload,
        vec![0xF0, 0x00, 0x00, 0x06, 0x03, 0x80, 0xEE, 0x05, 4, 0]
    );
}

#[test]
fn codecs_go_by_their_position() {
    let codecs = vec![
        MediaCodec::AUDIO_PCM,
        MediaCodec::AUDIO_AAC_LC,
        MediaCodec::VIDEO_H264_BP,
        MediaCodec::AUDIO_AAC_LC_ADTS,
        MediaCodec::VIDEO_VP9,
        MediaCodec::VIDEO_AV1,
        MediaCodec::VIDEO_H265,
    ];
    for (i, codec) in codecs.iter().enumerate() {
        let p = AudioStreamingParams { codec: *codec, bitrate: 0, sid: 0, max_unack: 0 };
        assert_eq!(record_audio_packet(1, &p).payload[4], i as u8);
    }
}

#[test]
fn extreme_numbers_in_postcard_form() {
    let p = AudioStreamingParams {
        codec: MediaCodec::AUDIO_PCM,
        bitrate: i32::MIN,
        sid: 255,
        max_unack: u32::MAX,
    };
    assert_eq!(
        record_audio_packet(1, &p).payload[4..],
        [0, 0xFF, 0xFF, 0xFF, 0xFF, 0x0F, 255, 0xFF, 0xFF, 0xFF, 0xFF, 0x0F]
    );
}
