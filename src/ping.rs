use vstd::prelude::*;

use crate::ident::{format_identifier, identifier_text, parse_identifier, parsed_identifier};
use crate::net::NetAddr;
use crate::peers::{peers_after, Peer, PEER_TTL_MS};

verus! {

/// How often, in milliseconds, a node broadcasts its beacon.
pub const BEACON_INTERVAL_MS: u64 = 1000;

/// The address of the local broadcast domain, 255.255.255.255.
pub const BROADCAST_IP: u32 = 0xFFFF_FFFF;

/// A beacon: the sender's secure-transport port and the text of its
/// identifier.
#[derive(Clone, Debug)]
pub struct Ping {
    pub port: u32,
    pub uuid: String,
}

/// The beacon sender of a node.
pub struct PingSink {
    pub uuid: u128,
    /// The well-known discovery port beacons are sent to.
    pub port: u16,
    /// The port of this node's secure-transport listener.
    pub quic_port: u16,
}

impl PingSink {
    pub fn new(uuid: u128, port: u16, quic_port: u16) -> (r: PingSink)
        ensures
            r.uuid == uuid,
            r.port == port,
            r.quic_port == quic_port,
    {
        PingSink { uuid, port, quic_port }
    }

    /// The beacon this node broadcasts.
    pub fn beacon(&self) -> (r: Ping)
        ensures
            r.port == self.quic_port as u32,
            r.uuid@ == identifier_text(self.uuid),
    {
        Ping { port: self.quic_port as u32, uuid: format_identifier(self.uuid) }
    }

    /// Where beacons are sent: the broadcast address on the discovery port.
    pub fn destination(&self) -> (r: NetAddr)
        ensures
            r == (NetAddr { ip: BROADCAST_IP, port: self.port }),
    {
        NetAddr { ip: BROADCAST_IP, port: self.port }
    }
}

/// The sighting a receiver named `own` forwards for a beacon of `id`, or
/// `None` for its own echo.
pub open spec fn sighting_of(own: u128, id: u128, port: u32, from: NetAddr, now: u64) -> Option<
    (u128, Peer),
> {
    if id == own {
        None
    } else {
        Some((id, Peer { addr: from, port, timeout: (now + PEER_TTL_MS) as u64, death: None }))
    }
}

/// A node's own beacons, which broadcast brings back to it, never produce a
/// registry entry: the receiver forwards no sighting for them, and the
/// registry ignores its own identifier whatever it is sent.
pub proof fn lemma_self_echo_suppressed(
    own: u128,
    port: u32,
    from: NetAddr,
    now: u64,
    peers: Map<u128, Peer>,
    incoming: Peer,
)
    ensures
        sighting_of(own, own, port, from, now) is None,
        peers_after(own, peers, own, incoming) == peers,
{
}

/// The beacon receiver of a node.
pub struct PingStream {
    pub uuid: u128,
}

impl PingStream {
    pub fn new(uuid: u128) -> (r: PingStream)
        ensures
            r.uuid == uuid,
    {
        PingStream { uuid }
    }

    /// The sighting to forward for a beacon of `id` announcing `port`,
    /// received from `from` at instant `now`.
    pub fn sighting(&self, id: u128, port: u32, from: NetAddr, now: u64) -> (r: Option<(u128, Peer)>)
        requires
            now <= u64::MAX - PEER_TTL_MS,
        ensures
            r == sighting_of(self.uuid, id, port, from, now),
    {
        if id == self.uuid {
            None
        } else {
            Some((id, Peer { addr: from, port, timeout: now + PEER_TTL_MS, death: None }))
        }
    }

    /// Reads a beacon received from `from` at instant `now`: the sighting to
    /// forward, or `None` for the node's own echo and for a beacon whose
    /// identifier text names no identifier, which is dropped.
    pub fn receive(&self, ping: &Ping, from: NetAddr, now: u64) -> (r: Option<(u128, Peer)>)
        requires
            now <= u64::MAX - PEER_TTL_MS,
        ensures
            r == match parsed_identifier(ping.uuid@) {
                None => None,
                Some(id) => sighting_of(self.uuid, id, ping.port, from, now),
            },
            ping.uuid@ == identifier_text(self.uuid) ==> r is None,
    {
        match parse_identifier(&ping.uuid) {
            None => None,
            Some(id) => self.sighting(id, ping.port, from, now),
        }
    }
}

} // verus!
