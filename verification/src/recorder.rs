//! The commands that start the recorder, with their parameters in postcard form.
use vstd::prelude::*;

use crate::aa_services::{AudioStreamingParams, MediaCodec, VideoStreamingParams};
use crate::channel_manager::Packet;
use crate::messages;
use crate::messages::compose_command;
use crate::protos;

verus! {

/// A number in groups of seven bits, least significant group first; every byte but
/// the last has its top bit set.
pub open spec fn varint(n: nat) -> Seq<u8>
    decreases n,
{
    if n < 128 {
        seq![n as u8]
    } else {
        seq![(n % 128 + 128) as u8] + varint(n / 128)
    }
}

/// Signed numbers folded into natural ones, small magnitudes first.
pub open spec fn zig_zag(v: int) -> nat {
    if v >= 0 {
        (2 * v) as nat
    } else {
        (-2 * v - 1) as nat
    }
}

/// The position of a codec in the list of codecs.
pub open spec fn codec_index(codec: MediaCodec) -> u32 {
    match codec {
        MediaCodec::AUDIO_PCM => 0,
        MediaCodec::AUDIO_AAC_LC => 1,
        MediaCodec::VIDEO_H264_BP => 2,
        MediaCodec::AUDIO_AAC_LC_ADTS => 3,
        MediaCodec::VIDEO_VP9 => 4,
        MediaCodec::VIDEO_AV1 => 5,
        MediaCodec::VIDEO_H265 => 6,
    }
}

/// The postcard form of the video parameters: the fields in order.
pub open spec fn video_params_bytes(p: VideoStreamingParams) -> Seq<u8> {
    varint(zig_zag(p.bitrate as int)) + varint(zig_zag(p.res_w as int)) + varint(
        zig_zag(p.res_h as int),
    ) + varint(zig_zag(p.fps as int)) + varint(zig_zag(p.dpi as int)) + seq![p.sid] + varint(
        p.max_unack as nat,
    )
}

/// The postcard form of the audio parameters: the fields in order, the codec by its
/// position.
pub open spec fn audio_params_bytes(p: AudioStreamingParams) -> Seq<u8> {
    varint(codec_index(p.codec) as nat) + varint(zig_zag(p.bitrate as int)) + seq![p.sid] + varint(
        p.max_unack as nat,
    )
}

/// `postcard::to_stdvec` on the fields of the video parameters.
///
/// Taken from postcard: a tuple is written field after field without a length,
/// an `i32` as the varint of its zig-zag form, a `u32` as a varint and a `u8` as it
/// is; writing to a vector does not fail.
#[verifier::external_body]
fn postcard_video(v: (i32, i32, i32, i32, i32, u8, u32)) -> (r: Option<Vec<u8>>)
    ensures
        r is Some,
        r->0@ == varint(zig_zag(v.0 as int)) + varint(zig_zag(v.1 as int)) + varint(
            zig_zag(v.2 as int),
        ) + varint(zig_zag(v.3 as int)) + varint(zig_zag(v.4 as int)) + seq![v.5] + varint(
            v.6 as nat,
        ),
{
    postcard::to_stdvec(&v).ok()
}

/// `postcard::to_stdvec` on the fields of the audio parameters, with the same facts
/// taken from postcard as for the video parameters.
#[verifier::external_body]
fn postcard_audio(v: (u32, i32, u8, u32)) -> (r: Option<Vec<u8>>)
    ensures
        r is Some,
        r->0@ == varint(v.0 as nat) + varint(zig_zag(v.1 as int)) + seq![v.2] + varint(v.3 as nat),
{
    postcard::to_stdvec(&v).ok()
}

/// The command that starts video recording.
pub fn record_video_packet(channel: u8, params: &VideoStreamingParams) -> (pkt: Packet)
    ensures
        pkt@ == messages::command_packet(
            channel,
            protos::CMD_START_VIDEO_RECORDING,
            video_params_bytes(*params),
        ),
{
    let bytes = postcard_video(
        (
            params.bitrate,
            params.res_w,
            params.res_h,
            params.fps,
            params.dpi,
            params.sid,
            params.max_unack,
        ),
    ).unwrap();
    compose_command(channel, protos::CMD_START_VIDEO_RECORDING, bytes.as_slice())
}

/// The command that starts audio recording.
pub fn record_audio_packet(channel: u8, params: &AudioStreamingParams) -> (pkt: Packet)
    ensures
        pkt@ == messages::command_packet(
            channel,
            protos::CMD_START_AUDIO_RECORDING,
            audio_params_bytes(*params),
        ),
{
    let index: u32 = match params.codec {
        MediaCodec::AUDIO_PCM => 0,
        MediaCodec::AUDIO_AAC_LC => 1,
        MediaCodec::VIDEO_H264_BP => 2,
        MediaCodec::AUDIO_AAC_LC_ADTS => 3,
        MediaCodec::VIDEO_VP9 => 4,
        MediaCodec::VIDEO_AV1 => 5,
        MediaCodec::VIDEO_H265 => 6,
    };
    let bytes = postcard_audio((index, params.bitrate, params.sid, params.max_unack)).unwrap();
    compose_command(channel, protos::CMD_START_AUDIO_RECORDING, bytes.as_slice())
}

} // verus!
