//! The gateway between the head unit and the services or the mobile device: what to
//! do with each packet, and the two TLS handshakes.
use std::collections::HashMap;

use vstd::prelude::*;

use crate::aa_services::AAMessageType;
use crate::channel_manager;
use crate::channel_manager::{ssl_encapsulate, Packet, PacketView, SslStreams, HEADER_LENGTH};
use crate::config::{AAMode, AppConfig, HexdumpLevel};
use crate::messages::ServiceEntry;
use crate::packet_hooks;
use crate::packet_hooks::{ModifyTarget, PacketDebug};
use crate::protos;

verus! {

// ---------------------------------------------------------------------------
// Errors of the TLS engine.

/// The errors of the TLS engine.
#[verifier::external_type_specification]
#[verifier::external_body]
pub struct ExSslError(openssl::ssl::Error);

/// OpenSSL's code for a read that found no data.
pub const SSL_ERROR_WANT_READ: i32 = 2;

/// OpenSSL's code for a write that found no room.
pub const SSL_ERROR_WANT_WRITE: i32 = 3;

/// OpenSSL's code for a failure of the stream below.
pub const SSL_ERROR_SYSCALL: i32 = 5;

/// Whether an error of that code ends the handshake. An engine that only waits for
/// more data does not.
pub open spec fn is_fatal_code(code: i32) -> bool {
    code != SSL_ERROR_WANT_READ && code != SSL_ERROR_WANT_WRITE && code != SSL_ERROR_SYSCALL
}

/// Tests whether an error of that code ends the handshake.
pub fn ssl_code_is_fatal(code: i32) -> (b: bool)
    ensures
        b == is_fatal_code(code),
{
    !(code == SSL_ERROR_WANT_READ || code == SSL_ERROR_WANT_WRITE || code == SSL_ERROR_SYSCALL)
}

/// The number of an error's code.
pub uninterp spec fn raw_code(err: openssl::ssl::Error) -> i32;

/// `openssl::ssl::Error::code` and `openssl::ssl::ErrorCode::as_raw`: the number of
/// the code that the error holds.
#[verifier::external_body]
fn ssl_error_code(err: &openssl::ssl::Error) -> (code: i32)
    ensures
        code == raw_code(*err),
{
    err.code().as_raw()
}

/// Passes on an error of the TLS engine where it is a true failure.
pub fn ssl_check_failure<T>(res: Result<T, openssl::ssl::Error>) -> (r: Result<
    (),
    openssl::ssl::Error,
>)
    ensures
        r is Err <==> res is Err && is_fatal_code(raw_code(res->Err_0)),
        r matches Err(e) ==> e == res->Err_0,
{
    match res {
        Ok(_) => Ok(()),
        Err(err) => if ssl_code_is_fatal(ssl_error_code(&err)) {
            Err(err)
        } else {
            Ok(())
        },
    }
}

// ---------------------------------------------------------------------------
// The loops of the proxy.

/// The ways to run the proxy.
#[derive(Clone, Copy, Debug, PartialEq, Eq, Structural)]
pub enum ProxyMode {
    Mirror,
    PassThrough,
    Mitm,
}

/// What the proxy lacks for the configured mode.
#[derive(Clone, Copy, Debug, PartialEq, Eq, Structural)]
pub enum StartError {
    /// There is no connection to the mobile device.
    NoMobileDevice,
    /// There is nobody to hand packets to.
    NoServices,
}

/// What to do with a packet that the services send.
#[derive(Clone, Copy, Debug, PartialEq, Eq, Structural)]
pub enum OutboundStep {
    /// It is encrypted and there are no keys yet.
    Drop,
    Encrypt,
    Transmit,
}

/// What to do with a packet that a peer sends.
#[derive(Clone, Copy, Debug, PartialEq, Eq, Structural)]
pub enum InboundStep {
    /// It is encrypted and there are no keys yet.
    Drop,
    Decrypt,
    /// It opens the handshake.
    Handshake,
    /// It goes on as it is.
    Forward,
}

/// What to do with a packet of the head unit once it is plain.
#[derive(Clone, Copy, Debug, PartialEq, Eq, Structural)]
pub enum MediaStep {
    AckAudio,
    AckVideo,
    /// A media packet that nobody waits for.
    Ignore,
    /// Hand it to the services.
    Forward,
}

/// The state of the proxy.
#[derive(Clone, Copy, Debug, PartialEq, Eq, Structural)]
pub struct TlsPacketProxy {
    /// How much of the packets the log shows in hexadecimal.
    pub dmp_level: HexdumpLevel,
    pub cfg: AppConfig,
    /// Bytes received since the counters were read.
    pub r_statistics: usize,
    /// Bytes sent since the counters were read.
    pub w_statistics: usize,
    pub audio_sid: u8,
    pub video_sid: u8,
    /// Whether somebody waits for acknowledgements of audio.
    pub audio_ack: bool,
    /// Whether somebody waits for acknowledgements of video.
    pub video_ack: bool,
    pub ssl_handshake_done: bool,
}

/// The sum of two machine words, which wraps around.
pub open spec fn wrapped_sum(a: int, b: int) -> int {
    if a + b > usize::MAX {
        a + b - usize::MAX - 1
    } else {
        a + b
    }
}

/// A byte counter after a frame of `p`: header and payload are counted.
pub open spec fn counted(count: usize, p: PacketView) -> usize {
    wrapped_sum(wrapped_sum(count as int, HEADER_LENGTH as int), p.payload.len() as int) as usize
}

fn count(counter: usize, pkt: &Packet) -> (r: usize)
    ensures
        r == counted(counter, pkt@),
{
    counter.wrapping_add(HEADER_LENGTH).wrapping_add(pkt.payload.len())
}

/// What to do with a packet from a peer, by its flags and, where it is plain, its
/// number.
pub open spec fn inbound_step(handshake_done: bool, p: PacketView) -> InboundStep {
    if channel_manager::is_encrypted(p.flags) {
        if handshake_done {
            InboundStep::Decrypt
        } else {
            InboundStep::Drop
        }
    } else if !handshake_done && p.message_id() == protos::MESSAGE_ENCAPSULATED_SSL {
        InboundStep::Handshake
    } else {
        InboundStep::Forward
    }
}

/// What to do with a packet from the mobile device, which never opens the handshake.
pub open spec fn mobile_step(handshake_done: bool, p: PacketView) -> InboundStep {
    if !channel_manager::is_encrypted(p.flags) {
        InboundStep::Forward
    } else if handshake_done {
        InboundStep::Decrypt
    } else {
        InboundStep::Drop
    }
}

/// What to do with a packet that the services send.
pub open spec fn outbound_step(handshake_done: bool, p: PacketView) -> OutboundStep {
    if channel_manager::is_encrypted(p.flags) {
        if handshake_done {
            OutboundStep::Encrypt
        } else {
            OutboundStep::Drop
        }
    } else {
        OutboundStep::Transmit
    }
}

/// Whether a payload is longer than it should be.
pub open spec fn is_too_long(p: PacketView, max: int) -> bool {
    p.payload.len() > max
}

/// What can go wrong with a packet on its way.
#[derive(Clone, Copy, Debug, PartialEq, Eq, Structural)]
pub enum ProxyFailure {
    /// The payload could not be decrypted.
    Decrypt,
    /// The payload could not be encrypted.
    Encrypt,
    /// The frame could not be sent to a peer.
    Transmit,
    /// The packet could not be handed to the services.
    Forward,
}

/// Whether a failure ends the proxy: a lost peer always does, and a packet that cannot
/// be encrypted does so while mirroring. Otherwise the packet is dropped.
pub open spec fn ends_proxy(mode: ProxyMode, failure: ProxyFailure) -> bool {
    failure == ProxyFailure::Transmit || (failure == ProxyFailure::Encrypt && mode
        == ProxyMode::Mirror)
}

/// Tells whether a failure ends the proxy.
pub fn failure_ends_proxy(mode: ProxyMode, failure: ProxyFailure) -> (b: bool)
    ensures
        b == ends_proxy(mode, failure),
{
    match failure {
        ProxyFailure::Transmit => true,
        ProxyFailure::Encrypt => mode == ProxyMode::Mirror,
        ProxyFailure::Decrypt => false,
        ProxyFailure::Forward => false,
    }
}

/// Before the handshake is done no encrypted packet moves in either direction, and
/// afterwards none is held back or taken for a handshake.
pub proof fn law_encryption_needs_handshake(p: PacketView)
    ensures
        channel_manager::is_encrypted(p.flags) ==> inbound_step(false, p) == InboundStep::Drop
            && mobile_step(false, p) == InboundStep::Drop && outbound_step(false, p)
            == OutboundStep::Drop,
        inbound_step(true, p) != InboundStep::Drop && inbound_step(true, p)
            != InboundStep::Handshake,
        mobile_step(true, p) != InboundStep::Drop && mobile_step(true, p)
            != InboundStep::Handshake,
        outbound_step(true, p) != OutboundStep::Drop,
{
}

impl TlsPacketProxy {
    /// Whether the packet belongs to one of the media channels that acknowledge.
    pub open spec fn is_media(self, p: PacketView) -> bool {
        self.audio_sid > 0 && self.video_sid > 0 && (p.channel == self.audio_sid || p.channel
            == self.video_sid)
    }

    /// What to do with a plain packet of the head unit.
    pub open spec fn media_step(self, p: PacketView) -> MediaStep {
        if !self.is_media(p) {
            MediaStep::Forward
        } else if !self.cfg.ignore_media_ack && p.message_id() == protos::MEDIA_MESSAGE_ACK {
            if p.channel == self.audio_sid {
                if self.audio_ack {
                    MediaStep::AckAudio
                } else {
                    MediaStep::Ignore
                }
            } else if self.video_ack {
                MediaStep::AckVideo
            } else {
                MediaStep::Ignore
            }
        } else {
            MediaStep::Ignore
        }
    }

    pub fn new(dmp_level: HexdumpLevel, cfg: AppConfig) -> (r: Self)
        ensures
            r == (TlsPacketProxy {
                dmp_level,
                cfg,
                r_statistics: 0,
                w_statistics: 0,
                audio_sid: 0,
                video_sid: 0,
                audio_ack: false,
                video_ack: false,
                ssl_handshake_done: false,
            }),
    {
        TlsPacketProxy {
            dmp_level,
            cfg,
            r_statistics: 0,
            w_statistics: 0,
            audio_sid: 0,
            video_sid: 0,
            audio_ack: false,
            video_ack: false,
            ssl_handshake_done: false,
        }
    }

    /// How the proxy runs, or what is missing for it.
    pub open spec fn mode(self, has_md_tx: bool, has_srv_tx: bool) -> Result<
        ProxyMode,
        StartError,
    > {
        match self.cfg.aa_mode {
            AAMode::PassThrough => if !has_md_tx {
                Err(StartError::NoMobileDevice)
            } else if self.cfg.mitm {
                Ok(ProxyMode::Mitm)
            } else {
                Ok(ProxyMode::PassThrough)
            },
            AAMode::Mirror => if !has_srv_tx {
                Err(StartError::NoServices)
            } else {
                Ok(ProxyMode::Mirror)
            },
        }
    }

    /// Chooses how the proxy runs, and says what is missing for it.
    pub fn start(&self, has_md_tx: bool, has_srv_tx: bool) -> (r: Result<ProxyMode, StartError>)
        ensures
            r == self.mode(has_md_tx, has_srv_tx),
    {
        match self.cfg.aa_mode {
            AAMode::PassThrough => if !has_md_tx {
                Err(StartError::NoMobileDevice)
            } else if self.cfg.mitm {
                Ok(ProxyMode::Mitm)
            } else {
                Ok(ProxyMode::PassThrough)
            },
            AAMode::Mirror => if !has_srv_tx {
                Err(StartError::NoServices)
            } else {
                Ok(ProxyMode::Mirror)
            },
        }
    }

    /// What the log shows of a packet that passes on a channel of that kind, where it shows
    /// details.
    pub fn pkt_debug(
        &self,
        enabled: bool,
        msg_type: AAMessageType,
        hexdump: HexdumpLevel,
        hex_requested: HexdumpLevel,
        pkt: &Packet,
    ) -> (r: Option<PacketDebug>)
        ensures
            r == packet_hooks::shown(
                enabled,
                hexdump,
                hex_requested,
                pkt@,
                packet_hooks::shown_body(msg_type, pkt@.message_id()),
            ),
    {
        packet_hooks::channel_pkt_debug(enabled, msg_type, hexdump, hex_requested, pkt)
    }

    /// The state with a frame from the head unit counted.
    pub open spec fn with_read(self, p: PacketView) -> Self {
        TlsPacketProxy { r_statistics: counted(self.r_statistics, p), ..self }
    }

    /// The state with a frame towards the head unit counted.
    pub open spec fn with_written(self, p: PacketView) -> Self {
        TlsPacketProxy { w_statistics: counted(self.w_statistics, p), ..self }
    }

    /// The state with both counters set back.
    pub open spec fn without_statistics(self) -> Self {
        TlsPacketProxy { r_statistics: 0, w_statistics: 0, ..self }
    }

    /// The state after a packet that the services send: it counts where it is sent as it is.
    pub open spec fn after_service(self, p: PacketView) -> Self {
        if outbound_step(self.ssl_handshake_done, p) == OutboundStep::Transmit {
            self.with_written(p)
        } else {
            self
        }
    }

    /// Reads the byte counters and sets them back.
    pub fn take_statistics(&mut self) -> (r: (usize, usize))
        ensures
            r == (old(self).r_statistics, old(self).w_statistics),
            *final(self) == old(self).without_statistics(),
    {
        let r = (self.r_statistics, self.w_statistics);
        self.r_statistics = 0;
        self.w_statistics = 0;
        r
    }

    /// Passes a packet from the head unit to the mobile device: it only counts.
    pub fn run_aa_pt_from_hu(&mut self, pkt: &Packet)
        ensures
            *final(self) == old(self).with_read(pkt@),
    {
        self.r_statistics = count(self.r_statistics, pkt);
    }

    /// Passes a packet from the mobile device to the head unit: it only counts.
    pub fn run_aa_pt_from_md(&mut self, pkt: &Packet)
        ensures
            *final(self) == old(self).with_written(pkt@),
    {
        self.w_statistics = count(self.w_statistics, pkt);
    }

    /// Decides on a packet from the head unit, and counts it.
    pub fn from_head_unit(&mut self, pkt: &Packet) -> (step: InboundStep)
        requires
            !channel_manager::is_encrypted(pkt.flags) ==> pkt.payload@.len() >= 2,
        ensures
            step == inbound_step(old(self).ssl_handshake_done, pkt@),
            *final(self) == old(self).with_read(pkt@),
    {
        self.r_statistics = count(self.r_statistics, pkt);
        if pkt.is_encrypted() {
            if self.ssl_handshake_done {
                InboundStep::Decrypt
            } else {
                InboundStep::Drop
            }
        } else if !self.ssl_handshake_done && pkt.message_id()
            == protos::MESSAGE_ENCAPSULATED_SSL {
            InboundStep::Handshake
        } else {
            InboundStep::Forward
        }
    }

    /// Decides on a packet from the mobile device, and counts it. The mobile device
    /// never opens the handshake.
    pub fn from_mobile_device(&mut self, pkt: &Packet) -> (step: InboundStep)
        ensures
            step == mobile_step(old(self).ssl_handshake_done, pkt@),
            *final(self) == old(self).with_written(pkt@),
    {
        self.w_statistics = count(self.w_statistics, pkt);
        if !pkt.is_encrypted() {
            InboundStep::Forward
        } else if self.ssl_handshake_done {
            InboundStep::Decrypt
        } else {
            InboundStep::Drop
        }
    }

    /// Decides on a packet that the services send. A plain packet counts now, an
    /// encrypted one once its records are known.
    pub fn from_service(&mut self, pkt: &Packet) -> (step: OutboundStep)
        ensures
            step == outbound_step(old(self).ssl_handshake_done, pkt@),
            *final(self) == old(self).after_service(pkt@),
    {
        if pkt.is_encrypted() {
            if self.ssl_handshake_done {
                OutboundStep::Encrypt
            } else {
                OutboundStep::Drop
            }
        } else {
            self.w_statistics = count(self.w_statistics, pkt);
            OutboundStep::Transmit
        }
    }

    /// Counts a packet of the services whose payload has been encrypted, and tells
    /// whether it has become longer than a packet should be.
    pub fn service_encrypted(&mut self, pkt: &Packet, max_packet_len: usize) -> (too_big: bool)
        ensures
            too_big == is_too_long(pkt@, max_packet_len as int),
            *final(self) == old(self).with_written(pkt@),
    {
        self.w_statistics = count(self.w_statistics, pkt);
        pkt.payload.len() > max_packet_len
    }

    /// Decides on a packet of the head unit that has been decrypted for the services.
    pub fn mirror_decrypted(&self, pkt: &Packet) -> (step: MediaStep)
        requires
            self.is_media(pkt@) && !self.cfg.ignore_media_ack ==> pkt.payload@.len() >= 2,
        ensures
            step == self.media_step(pkt@),
    {
        if self.audio_sid > 0 && self.video_sid > 0 && (pkt.channel == self.audio_sid
            || pkt.channel == self.video_sid) {
            if !self.cfg.ignore_media_ack && pkt.message_id() == protos::MEDIA_MESSAGE_ACK {
                if pkt.channel == self.audio_sid {
                    if self.audio_ack {
                        return MediaStep::AckAudio;
                    }
                } else if self.video_ack {
                    return MediaStep::AckVideo;
                }
            }
            MediaStep::Ignore
        } else {
            MediaStep::Forward
        }
    }
}

// ---------------------------------------------------------------------------
// Handshakes.

/// What a handshake waits for.
#[derive(Clone, Copy, Debug, PartialEq, Eq, Structural)]
pub enum HandshakeWait {
    /// The engine that serves the head unit is to take a step.
    ServerAccept,
    /// The engine that is a client of the mobile device is to take a step.
    ClientHandshake,
    /// The next packet of the head unit.
    HuPacket,
    /// The next packet of the mobile device.
    MdPacket,
    /// Nothing: the exchange is over.
    Complete,
}

/// What a handshake step yields: packets to send, first to the mobile device, then to
/// the head unit, and what to wait for.
#[derive(Debug)]
pub struct HandshakeStep {
    pub to_md: Option<Packet>,
    pub to_hu: Option<Packet>,
    pub wait: HandshakeWait,
}

/// The view of a packet that may be there.
pub open spec fn packet_view(p: Option<Packet>) -> Option<PacketView> {
    match p {
        Some(pkt) => Some(pkt@),
        None => None,
    }
}

/// The state with the frames counted that a step gives for the mobile device and for the
/// head unit.
pub open spec fn counting(
    proxy: TlsPacketProxy,
    to_md: Option<PacketView>,
    to_hu: Option<PacketView>,
) -> TlsPacketProxy {
    let read = match to_md {
        Some(p) => proxy.with_read(p),
        None => proxy,
    };
    match to_hu {
        Some(p) => read.with_written(p),
        None => read,
    }
}

impl HandshakeStep {
    /// The step sends nothing.
    pub open spec fn is_quiet(self, wait: HandshakeWait) -> bool {
        self.to_md is None && self.to_hu is None && self.wait == wait
    }

    fn quiet(wait: HandshakeWait) -> (r: Self)
        ensures
            r.is_quiet(wait),
    {
        HandshakeStep { to_md: None, to_hu: None, wait }
    }
}

/// The handshake with the head unit alone.
#[derive(Clone, Copy, Debug, PartialEq, Eq, Structural)]
pub enum MirrorHandshake {
    Idle,
    /// The engine reads the client hello.
    ClientHello,
    /// The client's keys are awaited.
    AwaitKeys,
    /// The engine reads the client's keys.
    Keys,
}

impl MirrorHandshake {
    /// What follows the state.
    pub open spec fn following(self) -> MirrorHandshake {
        match self {
            MirrorHandshake::Idle => MirrorHandshake::Idle,
            MirrorHandshake::ClientHello => MirrorHandshake::AwaitKeys,
            MirrorHandshake::AwaitKeys => MirrorHandshake::Keys,
            MirrorHandshake::Keys => MirrorHandshake::Idle,
        }
    }

    /// What the state waits for.
    pub open spec fn awaits(self) -> HandshakeWait {
        match self {
            MirrorHandshake::Idle => HandshakeWait::Complete,
            MirrorHandshake::AwaitKeys => HandshakeWait::HuPacket,
            _ => HandshakeWait::ServerAccept,
        }
    }

    /// Whether the handshake is done with the state's step.
    pub open spec fn completes(self, finished: bool) -> bool {
        self == MirrorHandshake::Keys && finished
    }

    /// How many steps the handshake still takes.
    pub open spec fn steps_left(self) -> nat {
        match self {
            MirrorHandshake::Idle => 0,
            MirrorHandshake::ClientHello => 3,
            MirrorHandshake::AwaitKeys => 2,
            MirrorHandshake::Keys => 1,
        }
    }

    /// Begins with the head unit's client hello.
    pub fn begin(&mut self, hello: &Packet, hu: &mut SslStreams) -> (r: HandshakeStep)
        requires
            hello.payload@.len() >= 2,
        ensures
            *final(self) == MirrorHandshake::ClientHello,
            r.is_quiet(HandshakeWait::ServerAccept),
            final(hu).client_stream@ == decapsulated(old(hu).client_stream@, hello@),
            final(hu).server_stream == old(hu).server_stream,
    {
        hello.ssl_decapsulate_write(hu);
        *self = MirrorHandshake::ClientHello;
        HandshakeStep::quiet(HandshakeWait::ServerAccept)
    }

    /// Goes on after the engine has taken a step without failing. What the engine wrote
    /// goes to the head unit. After the second step the handshake is done where the
    /// engine says so.
    pub fn engine_stepped(
        &mut self,
        proxy: &mut TlsPacketProxy,
        finished: bool,
        hu: &mut SslStreams,
    ) -> (r: HandshakeStep)
        requires
            *old(self) == MirrorHandshake::ClientHello || *old(self) == MirrorHandshake::Keys,
        ensures
            *final(self) == old(self).following(),
            r.wait == final(self).awaits(),
            r.to_md is None,
            packet_view(r.to_hu) == Some(
                channel_manager::ssl_packet(old(hu).server_stream@),
            ),
            final(hu).server_stream@ == Seq::<u8>::empty(),
            final(hu).client_stream == old(hu).client_stream,
            *final(proxy) == (TlsPacketProxy {
                ssl_handshake_done: old(proxy).ssl_handshake_done || old(self).completes(
                    finished,
                ),
                ..*old(proxy)
            }),
    {
        let pkt = ssl_encapsulate(hu);
        match *self {
            MirrorHandshake::ClientHello => {
                *self = MirrorHandshake::AwaitKeys;
                HandshakeStep { to_md: None, to_hu: Some(pkt), wait: HandshakeWait::HuPacket }
            },
            _ => {
                if finished {
                    proxy.ssl_handshake_done = true;
                }
                *self = MirrorHandshake::Idle;
                HandshakeStep { to_md: None, to_hu: Some(pkt), wait: HandshakeWait::Complete }
            },
        }
    }

    /// Goes on with the head unit's keys.
    pub fn packet_from_hu(&mut self, pkt: &Packet, hu: &mut SslStreams) -> (r: HandshakeStep)
        requires
            *old(self) == MirrorHandshake::AwaitKeys,
            pkt.payload@.len() >= 2,
        ensures
            *final(self) == old(self).following(),
            r.is_quiet(final(self).awaits()),
            final(hu).client_stream@ == decapsulated(old(hu).client_stream@, pkt@),
            final(hu).server_stream == old(hu).server_stream,
    {
        pkt.ssl_decapsulate_write(hu);
        *self = MirrorHandshake::Keys;
        HandshakeStep::quiet(HandshakeWait::ServerAccept)
    }
}

/// What an engine has to read after a handshake packet.
pub open spec fn decapsulated(stream: Seq<u8>, p: PacketView) -> Seq<u8> {
    if p.message_id() == protos::MESSAGE_ENCAPSULATED_SSL {
        stream + p.payload.skip(2)
    } else {
        stream
    }
}

/// Where the handshakes with the mobile device and the head unit stand, that run
/// side by side.
#[derive(Clone, Copy, Debug, PartialEq, Eq, Structural)]
pub enum MitmPhase {
    Idle,
    /// The client writes its hello.
    ClientHello,
    /// The mobile device's hello is awaited.
    AwaitServerHello,
    /// The server reads the head unit's hello.
    ServerAccept,
    /// The client reads the mobile device's hello.
    ClientKeys,
    /// The mobile device's last records are awaited.
    AwaitServerDone,
    /// The head unit's keys are awaited.
    AwaitHuKeys,
    /// The server reads the head unit's keys.
    ServerFinish,
    /// The client reads the mobile device's last records.
    ClientFinish,
}

impl MitmPhase {
    /// The phase after this one.
    pub open spec fn following(self) -> MitmPhase {
        match self {
            MitmPhase::Idle => MitmPhase::Idle,
            MitmPhase::ClientHello => MitmPhase::AwaitServerHello,
            MitmPhase::AwaitServerHello => MitmPhase::ServerAccept,
            MitmPhase::ServerAccept => MitmPhase::ClientKeys,
            MitmPhase::ClientKeys => MitmPhase::AwaitServerDone,
            MitmPhase::AwaitServerDone => MitmPhase::AwaitHuKeys,
            MitmPhase::AwaitHuKeys => MitmPhase::ServerFinish,
            MitmPhase::ServerFinish => MitmPhase::ClientFinish,
            MitmPhase::ClientFinish => MitmPhase::Idle,
        }
    }

    /// What the phase waits for.
    pub open spec fn awaits(self) -> HandshakeWait {
        match self {
            MitmPhase::Idle => HandshakeWait::Complete,
            MitmPhase::ServerAccept | MitmPhase::ServerFinish => HandshakeWait::ServerAccept,
            MitmPhase::AwaitServerHello | MitmPhase::AwaitServerDone => HandshakeWait::MdPacket,
            MitmPhase::AwaitHuKeys => HandshakeWait::HuPacket,
            _ => HandshakeWait::ClientHandshake,
        }
    }

    /// Whether the phase's step gives a packet for the mobile device.
    pub open spec fn sends_to_md(self) -> bool {
        self == MitmPhase::ClientHello || self == MitmPhase::ClientKeys || self
            == MitmPhase::ClientFinish
    }

    /// Whether the phase's step gives a packet for the head unit.
    pub open spec fn sends_to_hu(self) -> bool {
        self == MitmPhase::ClientKeys || self == MitmPhase::ClientFinish
    }

    /// Whether the handshakes are done with the phase's step.
    pub open spec fn completes(self, finished: bool) -> bool {
        self == MitmPhase::ClientFinish && finished
    }

    /// Whether the head unit's hello, which was kept back, is read with the phase's step.
    pub open spec fn reads_hello(self) -> bool {
        self == MitmPhase::AwaitServerHello
    }

    /// How many steps the handshakes still take.
    pub open spec fn steps_left(self) -> nat {
        match self {
            MitmPhase::Idle => 0,
            MitmPhase::ClientHello => 8,
            MitmPhase::AwaitServerHello => 7,
            MitmPhase::ServerAccept => 6,
            MitmPhase::ClientKeys => 5,
            MitmPhase::AwaitServerDone => 4,
            MitmPhase::AwaitHuKeys => 3,
            MitmPhase::ServerFinish => 2,
            MitmPhase::ClientFinish => 1,
        }
    }
}

/// The handshakes with the mobile device and the head unit.
#[derive(Debug)]
pub struct MitmHandshake {
    pub phase: MitmPhase,
    /// The head unit's client hello, kept until the mobile device has answered.
    pub hello: Option<Packet>,
}

impl MitmHandshake {
    /// Whether the handshake waits for an engine.
    pub open spec fn waits_for_engine(self) -> bool {
        self.phase.awaits() == HandshakeWait::ServerAccept || self.phase.awaits()
            == HandshakeWait::ClientHandshake
    }

    /// The hello is kept as long as it is needed, and can be read.
    pub open spec fn well_formed(self) -> bool {
        self.phase == MitmPhase::ClientHello || self.phase == MitmPhase::AwaitServerHello ==> (
        self.hello matches Some(h) && h.payload@.len() >= 2)
    }

    pub fn new() -> (r: Self)
        ensures
            r.phase == MitmPhase::Idle,
            r.hello is None,
            r.well_formed(),
    {
        MitmHandshake { phase: MitmPhase::Idle, hello: None }
    }

    /// Begins when the head unit's client hello comes: the client towards the mobile
    /// device writes its own first.
    pub fn begin(&mut self, hello: Packet) -> (r: HandshakeStep)
        requires
            hello.payload@.len() >= 2,
        ensures
            final(self).phase == MitmPhase::ClientHello,
            final(self).hello == Some(hello),
            final(self).well_formed(),
            r.is_quiet(HandshakeWait::ClientHandshake),
    {
        self.phase = MitmPhase::ClientHello;
        self.hello = Some(hello);
        HandshakeStep::quiet(HandshakeWait::ClientHandshake)
    }

    /// Goes on after the engine that was asked for has taken a step without failing.
    /// `finished` tells whether the client's engine is done.
    pub fn engine_stepped(
        &mut self,
        proxy: &mut TlsPacketProxy,
        finished: bool,
        md: &mut SslStreams,
        hu: &mut SslStreams,
    ) -> (r: HandshakeStep)
        requires
            old(self).waits_for_engine(),
            old(self).well_formed(),
        ensures
            final(self).well_formed(),
            final(self).hello == old(self).hello,
            final(self).phase == old(self).phase.following(),
            r.wait == final(self).phase.awaits(),
            final(md).client_stream == old(md).client_stream,
            final(hu).client_stream == old(hu).client_stream,
            packet_view(r.to_md) == if old(self).phase.sends_to_md() {
                Some(channel_manager::ssl_packet(old(md).server_stream@))
            } else {
                None
            },
            packet_view(r.to_hu) == if old(self).phase.sends_to_hu() {
                Some(channel_manager::ssl_packet(old(hu).server_stream@))
            } else {
                None
            },
            old(self).phase.sends_to_md() ==> final(md).server_stream@ == Seq::<u8>::empty(),
            !old(self).phase.sends_to_md() ==> final(md).server_stream == old(md).server_stream,
            old(self).phase.sends_to_hu() ==> final(hu).server_stream@ == Seq::<u8>::empty(),
            !old(self).phase.sends_to_hu() ==> final(hu).server_stream == old(hu).server_stream,
            *final(proxy) == (TlsPacketProxy {
                ssl_handshake_done: old(proxy).ssl_handshake_done || old(self).phase.completes(
                    finished,
                ),
                ..counting(*old(proxy), packet_view(r.to_md), packet_view(r.to_hu))
            }),
    {
        match self.phase {
            MitmPhase::ClientHello => {
                let to_md = ssl_encapsulate(md);
                proxy.r_statistics = count(proxy.r_statistics, &to_md);
                self.phase = MitmPhase::AwaitServerHello;
                HandshakeStep { to_md: Some(to_md), to_hu: None, wait: HandshakeWait::MdPacket }
            },
            MitmPhase::ServerAccept => {
                self.phase = MitmPhase::ClientKeys;
                HandshakeStep::quiet(HandshakeWait::ClientHandshake)
            },
            MitmPhase::ServerFinish => {
                self.phase = MitmPhase::ClientFinish;
                HandshakeStep::quiet(HandshakeWait::ClientHandshake)
            },
            MitmPhase::ClientKeys => {
                let to_md = ssl_encapsulate(md);
                proxy.r_statistics = count(proxy.r_statistics, &to_md);
                let to_hu = ssl_encapsulate(hu);
                proxy.w_statistics = count(proxy.w_statistics, &to_hu);
                self.phase = MitmPhase::AwaitServerDone;
                HandshakeStep {
                    to_md: Some(to_md),
                    to_hu: Some(to_hu),
                    wait: HandshakeWait::MdPacket,
                }
            },
            _ => {
                if finished {
                    proxy.ssl_handshake_done = true;
                }
                let to_md = ssl_encapsulate(md);
                proxy.r_statistics = count(proxy.r_statistics, &to_md);
                let to_hu = ssl_encapsulate(hu);
                proxy.w_statistics = count(proxy.w_statistics, &to_hu);
                self.phase = MitmPhase::Idle;
                HandshakeStep {
                    to_md: Some(to_md),
                    to_hu: Some(to_hu),
                    wait: HandshakeWait::Complete,
                }
            },
        }
    }

    /// Goes on with a packet of the mobile device. With its hello the server gets to
    /// read the head unit's, which was kept back.
    pub fn packet_from_md(
        &mut self,
        pkt: &Packet,
        md: &mut SslStreams,
        hu: &mut SslStreams,
    ) -> (r: HandshakeStep)
        requires
            old(self).phase.awaits() == HandshakeWait::MdPacket,
            old(self).well_formed(),
            pkt.payload@.len() >= 2,
        ensures
            final(self).well_formed(),
            final(self).phase == old(self).phase.following(),
            r.is_quiet(final(self).phase.awaits()),
            final(md).client_stream@ == decapsulated(old(md).client_stream@, pkt@),
            final(md).server_stream == old(md).server_stream,
            final(hu).server_stream == old(hu).server_stream,
            old(self).phase.reads_hello() ==> {
                &&& final(self).hello is None
                &&& final(hu).client_stream@ == decapsulated(
                    old(hu).client_stream@,
                    old(self).hello->0@,
                )
            },
            !old(self).phase.reads_hello() ==> {
                &&& final(self).hello == old(self).hello
                &&& final(hu).client_stream == old(hu).client_stream
            },
    {
        pkt.ssl_decapsulate_write(md);
        match self.phase {
            MitmPhase::AwaitServerHello => {
                self.phase = MitmPhase::ServerAccept;
                if let Some(hello) = self.hello.take() {
                    hello.ssl_decapsulate_write(hu);
                }
                HandshakeStep::quiet(HandshakeWait::ServerAccept)
            },
            _ => {
                self.phase = MitmPhase::AwaitHuKeys;
                HandshakeStep::quiet(HandshakeWait::HuPacket)
            },
        }
    }

    /// Goes on with the head unit's keys.
    pub fn packet_from_hu(&mut self, pkt: &Packet, hu: &mut SslStreams) -> (r: HandshakeStep)
        requires
            old(self).phase.awaits() == HandshakeWait::HuPacket,
            pkt.payload@.len() >= 2,
        ensures
            final(self).well_formed(),
            final(self).phase == old(self).phase.following(),
            final(self).hello == old(self).hello,
            r.is_quiet(final(self).phase.awaits()),
            final(hu).client_stream@ == decapsulated(old(hu).client_stream@, pkt@),
            final(hu).server_stream == old(hu).server_stream,
    {
        pkt.ssl_decapsulate_write(hu);
        self.phase = MitmPhase::ServerFinish;
        HandshakeStep::quiet(HandshakeWait::ServerAccept)
    }
}

/// Every step brings a handshake nearer to its end: neither kind can run in circles, and
/// one is over exactly when it waits for nothing.
pub proof fn law_handshakes_end(mirror: MirrorHandshake, mitm: MitmPhase)
    ensures
        mirror != MirrorHandshake::Idle ==> mirror.following().steps_left() + 1
            == mirror.steps_left(),
        mirror.awaits() == HandshakeWait::Complete <==> mirror == MirrorHandshake::Idle,
        mitm != MitmPhase::Idle ==> mitm.following().steps_left() + 1 == mitm.steps_left(),
        mitm.awaits() == HandshakeWait::Complete <==> mitm == MitmPhase::Idle,
{
}

// ---------------------------------------------------------------------------
// The kinds of the channels.

/// The kind of the channel that an entry of the head unit's list opens.
pub open spec fn channel_kind(e: ServiceEntry) -> Option<AAMessageType> {
    if e.media_sink is Some {
        Some(AAMessageType::Media)
    } else if e.sensor_source is Some {
        Some(AAMessageType::Sensor)
    } else if e.media_source {
        Some(AAMessageType::Media)
    } else if e.input_source is Some {
        Some(AAMessageType::Input)
    } else if e.bluetooth {
        Some(AAMessageType::Bluetooth)
    } else if e.vendor_extension {
        Some(AAMessageType::VendorExtension)
    } else if e.wifi_projection {
        Some(AAMessageType::WiFiProjection)
    } else {
        None
    }
}

/// The kinds of the channels after the first `n` entries.
pub open spec fn kinds_after(
    kinds: Map<i32, AAMessageType>,
    entries: Seq<ServiceEntry>,
    n: int,
) -> Map<i32, AAMessageType>
    decreases n,
{
    if n <= 0 {
        kinds
    } else {
        let before = kinds_after(kinds, entries, n - 1);
        match channel_kind(entries[n - 1]) {
            Some(kind) => before.insert(entries[n - 1].id, kind),
            None => before,
        }
    }
}

/// What is known of the channels' kinds.
#[derive(Debug)]
pub struct ChannelKinds {
    map: HashMap<i32, AAMessageType>,
}

impl View for ChannelKinds {
    type V = Map<i32, AAMessageType>;

    closed spec fn view(&self) -> Map<i32, AAMessageType> {
        self.map@
    }
}

/// What is known at first: the kind of the control channel.
pub open spec fn first_kinds() -> Map<i32, AAMessageType> {
    Map::<i32, AAMessageType>::empty().insert(0, AAMessageType::Control)
}

/// What is known after a packet of the head unit, where `sdr` is what could be read of a list
/// of services.
pub open spec fn kinds_noticed(
    kinds: Map<i32, AAMessageType>,
    p: PacketView,
    sdr: Option<Seq<ServiceEntry>>,
) -> Map<i32, AAMessageType> {
    match sdr {
        Some(entries) => if is_service_list(p) {
            kinds_after(kinds, entries, entries.len() as int)
        } else {
            kinds
        },
        None => kinds,
    }
}

/// The entries of a list of services that may be there.
pub open spec fn listed(sdr: Option<&Vec<ServiceEntry>>) -> Option<Seq<ServiceEntry>> {
    match sdr {
        Some(entries) => Some(entries@),
        None => None,
    }
}

/// The kind of a channel; unknown where it has not been learned.
pub open spec fn kind_of(kinds: Map<i32, AAMessageType>, channel: u8) -> AAMessageType {
    if kinds.contains_key(channel as i32) {
        kinds[channel as i32]
    } else {
        AAMessageType::Unknown
    }
}

fn kind_of_entry(e: &ServiceEntry) -> (r: Option<AAMessageType>)
    ensures
        r == channel_kind(*e),
{
    if e.media_sink.is_some() {
        Some(AAMessageType::Media)
    } else if e.sensor_source.is_some() {
        Some(AAMessageType::Sensor)
    } else if e.media_source {
        Some(AAMessageType::Media)
    } else if e.input_source.is_some() {
        Some(AAMessageType::Input)
    } else if e.bluetooth {
        Some(AAMessageType::Bluetooth)
    } else if e.vendor_extension {
        Some(AAMessageType::VendorExtension)
    } else if e.wifi_projection {
        Some(AAMessageType::WiFiProjection)
    } else {
        None
    }
}

impl ChannelKinds {
    /// At first only the control channel is known.
    pub fn new() -> (r: Self)
        ensures
            r@ == first_kinds(),
    {
        let mut map: HashMap<i32, AAMessageType> = HashMap::new();
        map.insert(0, AAMessageType::Control);
        ChannelKinds { map }
    }

    pub fn get(&self, channel: u8) -> (r: AAMessageType)
        ensures
            r == kind_of(self@, channel),
    {
        match self.map.get(&(channel as i32)) {
            Some(kind) => *kind,
            None => AAMessageType::Unknown,
        }
    }

    /// Learns the kinds of the channels from the head unit's list of services.
    pub fn learn(&mut self, entries: &Vec<ServiceEntry>)
        ensures
            final(self)@ == kinds_after(old(self)@, entries@, entries@.len() as int),
    {
        let ghost start = self@;
        let mut i: usize = 0;
        while i < entries.len()
            invariant
                i <= entries@.len(),
                self@ == kinds_after(start, entries@, i as int),
            decreases entries@.len() - i,
        {
            if let Some(kind) = kind_of_entry(&entries[i]) {
                self.map.insert(entries[i].id, kind);
            }
            i = i + 1;
        }
    }

    /// Looks at a decrypted packet of the head unit: where it is the list of services
    /// and could be read, the kinds of the channels are learned from it.
    pub fn notice(&mut self, pkt: &Packet, sdr: Option<&Vec<ServiceEntry>>)
        requires
            pkt.payload@.len() >= 2,
        ensures
            final(self)@ == kinds_noticed(old(self)@, pkt@, listed(sdr)),
    {
        if pkt.channel == 0 && pkt.message_id() == protos::MESSAGE_SERVICE_DISCOVERY_RESPONSE {
            if let Some(entries) = sdr {
                self.learn(entries);
            }
        }
    }
}

/// Deals with a decrypted packet of the head unit on its way to the mobile device: the
/// kinds of the channels are learned where it is the list of services, and the kind of
/// its own channel decides how it is to be changed.
pub fn run_aa_mitm(
    cfg: &AppConfig,
    kinds: &mut ChannelKinds,
    pkt: &Packet,
    sdr: Option<&Vec<ServiceEntry>>,
) -> (r: (AAMessageType, ModifyTarget))
    requires
        pkt.payload@.len() >= 2,
    ensures
        final(kinds)@ == kinds_noticed(old(kinds)@, pkt@, listed(sdr)),
        r.0 == kind_of(final(kinds)@, pkt.channel),
        r.1 == packet_hooks::modify_target(*cfg, pkt@, r.0),
{
    kinds.notice(pkt, sdr);
    let kind = kinds.get(pkt.channel);
    let target = packet_hooks::pkt_modify_hook(cfg, pkt, kind);
    (kind, target)
}

/// Whether the packet holds the head unit's list of services.
pub open spec fn is_service_list(p: PacketView) -> bool {
    p.channel == 0 && p.message_id() == protos::MESSAGE_SERVICE_DISCOVERY_RESPONSE
}

/// The control channel keeps its kind as long as no service claims its number, and a
/// channel has the kind of the last entry of its number that has one.
pub proof fn law_last_entry_decides(
    kinds: Map<i32, AAMessageType>,
    entries: Seq<ServiceEntry>,
    n: int,
    i: int,
)
    requires
        0 <= i < n <= entries.len(),
        channel_kind(entries[i]) is Some,
        forall|j: int|
            i < j < n ==> (#[trigger] entries[j]).id != entries[i].id || channel_kind(entries[j])
                is None,
    ensures
        kinds_after(kinds, entries, n).contains_key(entries[i].id),
        kinds_after(kinds, entries, n)[entries[i].id] == channel_kind(entries[i])->0,
    decreases n,
{
    if i < n - 1 {
        law_last_entry_decides(kinds, entries, n - 1, i);
        assert(entries[n - 1].id != entries[i].id || channel_kind(entries[n - 1]) is None);
    }
}

// ---------------------------------------------------------------------------
// What the gateway does, by the bytes of the packets.

/// The head unit acknowledges media by the bytes 80 04, whatever follows them: with both
/// media channels known, and unless acknowledgements are to be ignored, the recorder of
/// that channel gets the acknowledgement where it waits for one.
pub proof fn law_acknowledgements_reach_their_recorder(proxy: TlsPacketProxy, p: PacketView)
    requires
        proxy.audio_sid > 0,
        proxy.video_sid > 0,
        !proxy.cfg.ignore_media_ack,
        p.payload.len() >= 2,
        p.payload[0] == 0x80,
        p.payload[1] == 0x04,
    ensures
        p.channel == proxy.audio_sid && proxy.audio_ack ==> proxy.media_step(p)
            == MediaStep::AckAudio,
        p.channel == proxy.audio_sid && !proxy.audio_ack ==> proxy.media_step(p)
            == MediaStep::Ignore,
        p.channel == proxy.video_sid && proxy.video_sid != proxy.audio_sid && proxy.video_ack
            ==> proxy.media_step(p) == MediaStep::AckVideo,
        p.channel == proxy.video_sid && proxy.video_sid != proxy.audio_sid && !proxy.video_ack
            ==> proxy.media_step(p) == MediaStep::Ignore,
{
}

/// What is no acknowledgement frees no place: nothing else on a media channel, and nothing
/// at all where acknowledgements are to be ignored. What is on no media channel goes to the
/// services, whatever it holds.
pub proof fn law_only_acknowledgements_free_places(proxy: TlsPacketProxy, p: PacketView)
    requires
        p.payload.len() >= 2,
    ensures
        p.channel != proxy.audio_sid && p.channel != proxy.video_sid ==> proxy.media_step(p)
            == MediaStep::Forward,
        proxy.audio_sid == 0 || proxy.video_sid == 0 ==> proxy.media_step(p)
            == MediaStep::Forward,
        proxy.audio_sid > 0 && proxy.video_sid > 0 && (p.channel == proxy.audio_sid || p.channel
            == proxy.video_sid) && (p.payload[0] != 0x80 || p.payload[1] != 0x04
            || proxy.cfg.ignore_media_ack) ==> proxy.media_step(p) == MediaStep::Ignore,
{
}

/// Two packets of the same channel whose payloads begin with the same two bytes get the
/// same step, and of the state only the media channels, the waiting recorders and the
/// choice to ignore acknowledgements count.
pub proof fn law_media_step_needs_channel_and_number(
    a: TlsPacketProxy,
    b: TlsPacketProxy,
    p: PacketView,
    q: PacketView,
)
    requires
        a.audio_sid == b.audio_sid,
        a.video_sid == b.video_sid,
        a.audio_ack == b.audio_ack,
        a.video_ack == b.video_ack,
        a.cfg.ignore_media_ack == b.cfg.ignore_media_ack,
        p.channel == q.channel,
        p.payload.len() >= 2,
        q.payload.len() >= 2,
        p.payload[0] == q.payload[0],
        p.payload[1] == q.payload[1],
    ensures
        a.media_step(p) == b.media_step(q),
{
}

/// A packet is taken for encrypted by the fourth bit of its flags alone. An encrypted one is
/// decrypted or encrypted after the handshake and dropped before it. A plain one passes,
/// with one exception: before the handshake is done, the bytes 00 03 of the head unit open
/// it.
pub proof fn law_flags_and_number_decide(done: bool, p: PacketView)
    requires
        p.payload.len() >= 2,
    ensures
        p.flags & 8 != 0 && done ==> inbound_step(done, p) == InboundStep::Decrypt && mobile_step(
            done,
            p,
        ) == InboundStep::Decrypt && outbound_step(done, p) == OutboundStep::Encrypt,
        p.flags & 8 != 0 && !done ==> inbound_step(done, p) == InboundStep::Drop && mobile_step(
            done,
            p,
        ) == InboundStep::Drop && outbound_step(done, p) == OutboundStep::Drop,
        p.flags & 8 == 0 ==> mobile_step(done, p) == InboundStep::Forward && outbound_step(done, p)
            == OutboundStep::Transmit,
        p.flags & 8 == 0 && !done && p.payload[0] == 0 && p.payload[1] == 3 ==> inbound_step(
            done,
            p,
        ) == InboundStep::Handshake,
        p.flags & 8 == 0 && (done || p.payload[0] != 0 || p.payload[1] != 3) ==> inbound_step(
            done,
            p,
        ) == InboundStep::Forward,
{
}

/// Every frame counts with its payload and four bytes more, and the counter of two frames
/// is that of the one after the other.
pub proof fn law_frames_are_counted(count: usize, p: PacketView, q: PacketView)
    requires
        count + p.payload.len() + q.payload.len() + 8 <= usize::MAX,
    ensures
        counted(count, p) == count + 4 + p.payload.len(),
        counted(counted(count, p), q) == count + p.payload.len() + q.payload.len() + 8,
        counted(counted(count, q), p) == counted(counted(count, p), q),
{
}

/// An engine that wants to read (2) or to write (3), or whose stream failed (5), goes on;
/// every other code is a failure.
pub proof fn law_engine_waits_are_no_failures(code: i32)
    ensures
        is_fatal_code(code) <==> !(code == 2 || code == 3 || code == 5),
{
}

/// A handshake packet adds to what an engine reads exactly what follows the bytes 00 03; a
/// packet of another number adds nothing.
pub proof fn law_handshake_data_reaches_the_engine(stream: Seq<u8>, p: PacketView)
    requires
        p.payload.len() >= 2,
    ensures
        p.payload[0] == 0 && p.payload[1] == 3 ==> decapsulated(stream, p).len() == stream.len()
            + p.payload.len() - 2 && decapsulated(stream, p).take(stream.len() as int) == stream
            && decapsulated(stream, p).skip(stream.len() as int) == p.payload.skip(2),
        p.payload[0] != 0 || p.payload[1] != 3 ==> decapsulated(stream, p) == stream,
{
    let d = decapsulated(stream, p);
    if p.payload[0] == 0 && p.payload[1] == 3 {
        assert(d.take(stream.len() as int) =~= stream);
        assert(d.skip(stream.len() as int) =~= p.payload.skip(2));
    }
}

/// A peer that cannot be reached ends the proxy in every mode. A packet that cannot be
/// encrypted does so only where this device speaks to the head unit itself; what cannot be
/// decrypted or handed on never does.
pub proof fn law_failures_that_end_the_proxy(mode: ProxyMode)
    ensures
        ends_proxy(mode, ProxyFailure::Transmit),
        !ends_proxy(mode, ProxyFailure::Decrypt),
        !ends_proxy(mode, ProxyFailure::Forward),
        ends_proxy(ProxyMode::Mirror, ProxyFailure::Encrypt),
        mode != ProxyMode::Mirror ==> !ends_proxy(mode, ProxyFailure::Encrypt),
{
}

/// While mirroring, a mobile device is not needed and the services are; while passing through
/// it is the other way round, and the packets are looked into exactly where that is
/// configured.
pub proof fn law_modes_need_their_peer(proxy: TlsPacketProxy, has_md_tx: bool, has_srv_tx: bool)
    ensures
        proxy.cfg.aa_mode == AAMode::Mirror && has_srv_tx ==> proxy.mode(has_md_tx, has_srv_tx)
            == Ok::<ProxyMode, StartError>(ProxyMode::Mirror),
        proxy.cfg.aa_mode == AAMode::Mirror && !has_srv_tx ==> proxy.mode(has_md_tx, has_srv_tx)
            == Err::<ProxyMode, StartError>(StartError::NoServices),
        proxy.cfg.aa_mode == AAMode::PassThrough && !has_md_tx ==> proxy.mode(
            has_md_tx,
            has_srv_tx,
        ) == Err::<ProxyMode, StartError>(StartError::NoMobileDevice),
        proxy.cfg.aa_mode == AAMode::PassThrough && has_md_tx && proxy.cfg.mitm ==> proxy.mode(
            has_md_tx,
            has_srv_tx,
        ) == Ok::<ProxyMode, StartError>(ProxyMode::Mitm),
        proxy.cfg.aa_mode == AAMode::PassThrough && has_md_tx && !proxy.cfg.mitm ==> proxy.mode(
            has_md_tx,
            has_srv_tx,
        ) == Ok::<ProxyMode, StartError>(ProxyMode::PassThrough),
{
}

/// A frame from the head unit grows the one counter by its bytes, a frame towards it the
/// other, and nothing else changes; setting the counters back touches nothing else either.
pub proof fn law_each_direction_has_its_counter(proxy: TlsPacketProxy, p: PacketView)
    requires
        proxy.r_statistics + p.payload.len() + 4 <= usize::MAX,
        proxy.w_statistics + p.payload.len() + 4 <= usize::MAX,
    ensures
        proxy.with_read(p) == (TlsPacketProxy {
            r_statistics: (proxy.r_statistics + p.payload.len() + 4) as usize,
            ..proxy
        }),
        proxy.with_written(p) == (TlsPacketProxy {
            w_statistics: (proxy.w_statistics + p.payload.len() + 4) as usize,
            ..proxy
        }),
        proxy.without_statistics() == (TlsPacketProxy {
            r_statistics: 0,
            w_statistics: 0,
            ..proxy
        }),
        p.flags & 8 == 0 ==> proxy.after_service(p) == proxy.with_written(p),
        p.flags & 8 != 0 ==> proxy.after_service(p) == proxy,
{
}

/// A payload of the largest length is not too long, and one byte more is.
pub proof fn law_longest_payload(p: PacketView, max: int)
    ensures
        p.payload.len() <= max ==> !is_too_long(p, max),
        p.payload.len() >= max + 1 ==> is_too_long(p, max),
{
}

/// The handshake with the head unit: the engine reads the hello, the keys are awaited, the
/// engine reads them, and it is over. Only the last step can complete it, and only where the
/// engine says so.
pub proof fn law_order_of_the_handshake(m: MirrorHandshake, finished: bool)
    ensures
        MirrorHandshake::ClientHello.following() == MirrorHandshake::AwaitKeys,
        MirrorHandshake::AwaitKeys.following() == MirrorHandshake::Keys,
        MirrorHandshake::Keys.following() == MirrorHandshake::Idle,
        MirrorHandshake::ClientHello.awaits() == HandshakeWait::ServerAccept,
        MirrorHandshake::AwaitKeys.awaits() == HandshakeWait::HuPacket,
        MirrorHandshake::Keys.awaits() == HandshakeWait::ServerAccept,
        m.completes(finished) ==> finished && m.following().awaits() == HandshakeWait::Complete,
        MirrorHandshake::Keys.completes(true),
{
}

/// The two handshakes side by side. First the mobile device is greeted; with its answer the
/// head unit's hello is read, and only then. The engine that serves the head unit steps before
/// the other one, and what both wrote is sent with the step of the latter. Nothing goes to the
/// head unit before the mobile device has answered. The last step completes them, where the
/// engine says so.
pub proof fn law_order_of_the_two_handshakes(phase: MitmPhase, finished: bool)
    ensures
        MitmPhase::ClientHello.following() == MitmPhase::AwaitServerHello,
        MitmPhase::AwaitServerHello.following() == MitmPhase::ServerAccept,
        MitmPhase::ServerAccept.following() == MitmPhase::ClientKeys,
        MitmPhase::ClientKeys.following() == MitmPhase::AwaitServerDone,
        MitmPhase::AwaitServerDone.following() == MitmPhase::AwaitHuKeys,
        MitmPhase::AwaitHuKeys.following() == MitmPhase::ServerFinish,
        MitmPhase::ServerFinish.following() == MitmPhase::ClientFinish,
        MitmPhase::ClientFinish.following() == MitmPhase::Idle,
        phase.awaits() == HandshakeWait::ClientHandshake <==> phase == MitmPhase::ClientHello
            || phase == MitmPhase::ClientKeys || phase == MitmPhase::ClientFinish,
        phase.awaits() == HandshakeWait::ServerAccept <==> phase == MitmPhase::ServerAccept
            || phase == MitmPhase::ServerFinish,
        phase.awaits() == HandshakeWait::MdPacket <==> phase == MitmPhase::AwaitServerHello
            || phase == MitmPhase::AwaitServerDone,
        phase.awaits() == HandshakeWait::HuPacket <==> phase == MitmPhase::AwaitHuKeys,
        phase.sends_to_md() <==> phase.awaits() == HandshakeWait::ClientHandshake,
        phase.sends_to_hu() <==> phase.sends_to_md() && phase != MitmPhase::ClientHello,
        phase.reads_hello() <==> phase == MitmPhase::AwaitServerHello,
        phase.completes(finished) <==> finished && phase.sends_to_md() && phase.following()
            == MitmPhase::Idle,
{
}

/// Every frame of the handshakes counts in its own direction.
pub proof fn law_handshake_frames_are_counted(
    proxy: TlsPacketProxy,
    p: PacketView,
    q: PacketView,
)
    ensures
        counting(proxy, None, None) == proxy,
        counting(proxy, Some(p), None) == proxy.with_read(p),
        counting(proxy, None, Some(q)) == proxy.with_written(q),
        counting(proxy, Some(p), Some(q)) == proxy.with_read(p).with_written(q),
{
}

/// Only a packet on the control channel that begins with the bytes 00 06 teaches the kinds of
/// the channels, and only where it could be read. At first the control channel is known and no
/// other.
pub proof fn law_only_the_list_teaches_kinds(
    kinds: Map<i32, AAMessageType>,
    p: PacketView,
    entries: Seq<ServiceEntry>,
    channel: u8,
)
    requires
        p.payload.len() >= 2,
    ensures
        kinds_noticed(kinds, p, None) == kinds,
        p.channel != 0 || p.payload[0] != 0 || p.payload[1] != 6 ==> kinds_noticed(
            kinds,
            p,
            Some(entries),
        ) == kinds,
        p.channel == 0 && p.payload[0] == 0 && p.payload[1] == 6 ==> kinds_noticed(
            kinds,
            p,
            Some(entries),
        ) == kinds_after(kinds, entries, entries.len() as int),
        kind_of(first_kinds(), 0) == AAMessageType::Control,
        channel != 0 ==> kind_of(first_kinds(), channel) == AAMessageType::Unknown,
{
}

/// A quiet step sends to nobody and waits for what it says. The engines are waited for in
/// exactly five of the phases: everywhere but at the end and where a packet is to come.
pub proof fn law_quiet_steps(step: HandshakeStep, wait: HandshakeWait, m: MitmHandshake)
    ensures
        step.is_quiet(wait) <==> packet_view(step.to_md) is None && packet_view(step.to_hu) is None
            && step.wait == wait,
        m.waits_for_engine() <==> m.phase != MitmPhase::Idle && m.phase
            != MitmPhase::AwaitServerHello && m.phase != MitmPhase::AwaitServerDone && m.phase
            != MitmPhase::AwaitHuKeys,
{
}

} // verus!
