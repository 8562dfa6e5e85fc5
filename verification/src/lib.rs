//! The core of a proxy between an Android Auto head unit and a mobile device.
//!
//! The proxy either mirrors the screen of the mobile device onto the head unit or passes
//! the session of the two through. What it decides and computes stands here: the framing
//! of the protocol, the services of a session, the reading and cutting of media streams,
//! the input events, and the steps of the loops that hold a session together. Reading,
//! sending and waiting are left to the caller.
pub mod aa_services;
pub mod bluetooth;
pub mod buffers;
pub mod channel_manager;
pub mod config;
pub mod device_laws;
pub mod gateway_laws;
pub mod h264_reader;
pub mod hid;
pub mod io_uring;
pub mod media_session;
pub mod media_sinks;
pub mod messages;
pub mod packet_hooks;
pub mod protos;
pub mod recorder;
pub mod relay;
pub mod scrcpy;
pub mod scrcpy_adb;
pub mod scrcpy_media;
pub mod service_laws;
pub mod service_manager;
pub mod service_tasks;
pub mod session_laws;
pub mod system_config;
pub mod text;
pub mod text_laws;
pub mod tls_proxy;
pub mod wire;
