//! Message numbers of the Android Auto protocol.
//!
//! The first two bytes of a payload hold one of these, most significant byte
//! first. Which list it belongs to follows from the channel.
use vstd::prelude::*;

verus! {

// Control channel.
pub const MESSAGE_VERSION_REQUEST: u16 = 1;
pub const MESSAGE_VERSION_RESPONSE: u16 = 2;
pub const MESSAGE_ENCAPSULATED_SSL: u16 = 3;
pub const MESSAGE_AUTH_COMPLETE: u16 = 4;
pub const MESSAGE_SERVICE_DISCOVERY_REQUEST: u16 = 5;
pub const MESSAGE_SERVICE_DISCOVERY_RESPONSE: u16 = 6;
pub const MESSAGE_CHANNEL_OPEN_REQUEST: u16 = 7;
pub const MESSAGE_CHANNEL_OPEN_RESPONSE: u16 = 8;
pub const MESSAGE_PING_REQUEST: u16 = 11;
pub const MESSAGE_PING_RESPONSE: u16 = 12;
pub const MESSAGE_NAV_FOCUS_REQUEST: u16 = 13;
pub const MESSAGE_BYEBYE_REQUEST: u16 = 15;
pub const MESSAGE_BYEBYE_RESPONSE: u16 = 16;
pub const MESSAGE_AUDIO_FOCUS_REQUEST: u16 = 18;
pub const MESSAGE_AUDIO_FOCUS_NOTIFICATION: u16 = 19;
pub const MESSAGE_UNEXPECTED_MESSAGE: u16 = 255;

/// Commands that the parts of this program send to each other in packets.
pub const MESSAGE_CUSTOM_CMD: u16 = 0xF000;

// Commands that follow `MESSAGE_CUSTOM_CMD` in a payload.
pub const CANCEL: u16 = 0;
pub const CMD_OPEN_CH: u16 = 1;
pub const CMD_SETUP_CH: u16 = 2;
pub const CMD_START_VIDEO_RECORDING: u16 = 3;
pub const CMD_PAUSE_VIDEO_RECORDING: u16 = 4;
pub const CMD_RESUME_VIDEO_RECORDING: u16 = 5;
pub const CMD_START_AUDIO_RECORDING: u16 = 6;
pub const CMD_PAUSE_AUDIO_RECORDING: u16 = 7;
pub const CMD_RESUME_AUDIO_RECORDING: u16 = 8;
pub const CMD_START_CONTROL_SERVER: u16 = 9;
pub const MD_DISCONNECTED: u16 = 10;

// Media channels.
pub const MEDIA_MESSAGE_DATA: u16 = 0;
pub const MEDIA_MESSAGE_CODEC_CONFIG: u16 = 1;
pub const MEDIA_MESSAGE_SETUP: u16 = 0x8000;
pub const MEDIA_MESSAGE_START: u16 = 0x8001;
pub const MEDIA_MESSAGE_STOP: u16 = 0x8002;
pub const MEDIA_MESSAGE_CONFIG: u16 = 0x8003;
pub const MEDIA_MESSAGE_ACK: u16 = 0x8004;
pub const MEDIA_MESSAGE_VIDEO_FOCUS_REQUEST: u16 = 0x8007;
pub const MEDIA_MESSAGE_VIDEO_FOCUS_NOTIFICATION: u16 = 0x8008;
pub const MEDIA_MESSAGE_AUDIO_UNDERFLOW_NOTIFICATION: u16 = 0x800B;

// Sensor channel.
pub const SENSOR_MESSAGE_REQUEST: u16 = 0x8001;
pub const SENSOR_MESSAGE_RESPONSE: u16 = 0x8002;
pub const SENSOR_MESSAGE_BATCH: u16 = 0x8003;
pub const SENSOR_MESSAGE_ERROR: u16 = 0x8004;

// Input channel.
pub const INPUT_MESSAGE_INPUT_REPORT: u16 = 0x8001;
pub const INPUT_MESSAGE_KEY_BINDING_REQUEST: u16 = 0x8002;
pub const INPUT_MESSAGE_KEY_BINDING_RESPONSE: u16 = 0x8003;

/// The key code by which head units report turns of a rotary controller.
pub const KEYCODE_ROTARY_CONTROLLER: u32 = 65536;

/// The status that an answer carries where the request was met.
pub const STATUS_SUCCESS: u16 = 0;

} // verus!
