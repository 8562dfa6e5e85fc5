//! How a gateway that looks into the session of a head unit and a mobile device relays
//! the packets of the two.
use vstd::prelude::*;

use crate::channel_manager;
use crate::channel_manager::{DeviceType, Packet, PacketView};
use crate::packet_hooks;
use crate::packet_hooks::{replace_body, ModifyTarget};
use crate::protos;
use crate::tls_proxy;
use crate::tls_proxy::InboundStep;

verus! {

/// The two TLS engines of the gateway.
#[derive(Clone, Copy, Debug, PartialEq, Eq, Structural)]
pub enum Engine {
    /// It serves the head unit.
    Server,
    /// It is a client of the mobile device.
    Client,
}

/// The way of a packet through the gateway.
#[derive(Clone, Copy, Debug, PartialEq, Eq, Structural)]
pub struct Route {
    pub source: DeviceType,
    /// The engine that decrypts it, where it is encrypted.
    pub decrypt: Option<Engine>,
    /// Whether the plain packet may be changed.
    pub hook: bool,
    /// The engine that encrypts it again.
    pub encrypt: Option<Engine>,
    pub target: DeviceType,
}

/// The peer on the other side of the gateway.
pub open spec fn other_side(peer: DeviceType) -> DeviceType {
    match peer {
        DeviceType::HeadUnit => DeviceType::MobileDevice,
        DeviceType::MobileDevice => DeviceType::HeadUnit,
    }
}

/// The engine that shares its keys with the peer.
pub open spec fn engine_of(peer: DeviceType) -> Engine {
    match peer {
        DeviceType::HeadUnit => Engine::Server,
        DeviceType::MobileDevice => Engine::Client,
    }
}

/// What to do with a packet of the peer.
pub open spec fn arrival_step(
    source: DeviceType,
    handshake_done: bool,
    p: PacketView,
) -> InboundStep {
    match source {
        DeviceType::HeadUnit => tls_proxy::inbound_step(handshake_done, p),
        DeviceType::MobileDevice => tls_proxy::mobile_step(handshake_done, p),
    }
}

/// The way of a packet of the peer on which that step was decided. A packet that is
/// dropped or taken for the handshake has none.
pub open spec fn route_of(source: DeviceType, step: InboundStep) -> Option<Route> {
    match step {
        InboundStep::Drop => None,
        InboundStep::Handshake => None,
        InboundStep::Forward => Some(
            Route {
                source,
                decrypt: None,
                hook: false,
                encrypt: None,
                target: other_side(source),
            },
        ),
        InboundStep::Decrypt => Some(
            Route {
                source,
                decrypt: Some(engine_of(source)),
                hook: source == DeviceType::HeadUnit,
                encrypt: Some(engine_of(other_side(source))),
                target: other_side(source),
            },
        ),
    }
}

/// Finds the way of a packet of the peer on which that step was decided.
pub fn route(source: DeviceType, step: InboundStep) -> (r: Option<Route>)
    ensures
        r == route_of(source, step),
{
    let (from, to, target) = match source {
        DeviceType::HeadUnit => (Engine::Server, Engine::Client, DeviceType::MobileDevice),
        DeviceType::MobileDevice => (Engine::Client, Engine::Server, DeviceType::HeadUnit),
    };
    match step {
        InboundStep::Drop => None,
        InboundStep::Handshake => None,
        InboundStep::Forward => Some(
            Route { source, decrypt: None, hook: false, encrypt: None, target },
        ),
        InboundStep::Decrypt => Some(
            Route {
                source,
                decrypt: Some(from),
                hook: source == DeviceType::HeadUnit,
                encrypt: Some(to),
                target,
            },
        ),
    }
}

impl Route {
    /// The plain packet that the way leads to the encrypting engine, from the one that the
    /// decrypting engine left.
    pub open spec fn plain_packet(
        self,
        p: PacketView,
        target: ModifyTarget,
        edited: Option<Seq<u8>>,
    ) -> PacketView {
        if self.hook {
            packet_hooks::hooked(p, target, edited)
        } else {
            p
        }
    }

    /// The packet that is sent for one that arrived: `plain` is what the decrypting engine
    /// read from it, `edited` the body that the message is to get, and `records` are those
    /// that the encrypting engine made.
    pub open spec fn sent_packet(
        self,
        p: PacketView,
        plain: Seq<u8>,
        target: ModifyTarget,
        edited: Option<Seq<u8>>,
        records: Seq<u8>,
    ) -> PacketView {
        let opened = if self.decrypt is Some {
            channel_manager::opened_packet(p, plain)
        } else {
            p
        };
        let changed = self.plain_packet(opened, target, edited);
        if self.encrypt is Some {
            channel_manager::sealed_packet(changed, records)
        } else {
            changed
        }
    }

    /// Changes the plain packet as the way wants it: `edited` is the body that the message
    /// is to get, where it could be read.
    pub fn change(&self, pkt: &mut Packet, target: ModifyTarget, edited: Option<Vec<u8>>)
        requires
            self.hook && target != ModifyTarget::Nothing && edited is Some ==> old(
                pkt,
            ).payload@.len() >= 2,
        ensures
            final(pkt)@ == self.plain_packet(
                old(pkt)@,
                target,
                match edited {
                    Some(body) => Some(body@),
                    None => None,
                },
            ),
    {
        if self.hook && target != ModifyTarget::Nothing {
            if let Some(body) = edited {
                replace_body(pkt, body.as_slice());
            }
        }
    }
}

/// Before the handshake is done an encrypted packet goes to neither side. A plain packet
/// that does not open the handshake goes to the other side as it is, with no engine and no
/// change on its way.
pub proof fn law_plain_packets_pass(
    source: DeviceType,
    handshake_done: bool,
    p: PacketView,
    plain: Seq<u8>,
    target: ModifyTarget,
    edited: Option<Seq<u8>>,
    records: Seq<u8>,
)
    ensures
        ({
            let way = route_of(source, arrival_step(source, handshake_done, p));
            let opens_handshake = source == DeviceType::HeadUnit && !handshake_done
                && p.message_id() == protos::MESSAGE_ENCAPSULATED_SSL;
            &&& channel_manager::is_encrypted(p.flags) && !handshake_done ==> way is None
            &&& !channel_manager::is_encrypted(p.flags) && opens_handshake ==> way is None
            &&& !channel_manager::is_encrypted(p.flags) && !opens_handshake ==> {
                &&& way == Some(
                    Route {
                        source,
                        decrypt: None,
                        hook: false,
                        encrypt: None,
                        target: other_side(source),
                    },
                )
                &&& (way->0).sent_packet(p, plain, target, edited, records) == p
            }
        }),
{
}

/// After the handshake an encrypted packet goes to the other side: the engine of its
/// sender decrypts it, that of the receiver encrypts it again, and channel, flags and
/// final length stay. What the receiver reads, where its engine hands back what was
/// encrypted, is what the sender wrote if that is the mobile device, and what the changes
/// leave of it if that is the head unit.
pub proof fn law_encrypted_packets_are_relayed(
    source: DeviceType,
    p: PacketView,
    plain: Seq<u8>,
    target: ModifyTarget,
    edited: Option<Seq<u8>>,
    records: Seq<u8>,
)
    requires
        channel_manager::is_encrypted(p.flags),
    ensures
        ({
            let way = route_of(source, arrival_step(source, true, p));
            let opened = channel_manager::opened_packet(p, plain);
            let kept = (way->0).plain_packet(opened, target, edited);
            let sent = (way->0).sent_packet(p, plain, target, edited, records);
            &&& way == Some(
                Route {
                    source,
                    decrypt: Some(engine_of(source)),
                    hook: source == DeviceType::HeadUnit,
                    encrypt: Some(engine_of(other_side(source))),
                    target: other_side(source),
                },
            )
            &&& sent == (PacketView { payload: records, ..p })
            &&& channel_manager::opened_packet(sent, kept.payload) == (PacketView {
                payload: kept.payload,
                ..p
            })
            &&& source == DeviceType::MobileDevice ==> kept.payload == plain
            &&& source == DeviceType::HeadUnit ==> kept == packet_hooks::hooked(
                opened,
                target,
                edited,
            )
            &&& source == DeviceType::HeadUnit && (target == ModifyTarget::Nothing || edited is None)
                ==> kept.payload == plain
        }),
{
}

} // verus!
