use std::collections::HashMap;

use vstd::prelude::*;

use crate::actor::Handler;
use crate::net::NetAddr;
use crate::quic::QuicTarget;

verus! {

broadcast use vstd::std_specs::hash::group_hash_axioms;

/// How long, in milliseconds, a sighting keeps a peer alive.
pub const PEER_TTL_MS: u64 = 10_000;

/// What the registry knows of one peer. Instants are milliseconds on the
/// node's monotonic clock.
#[derive(Clone, Copy, Debug, PartialEq, Eq, Structural)]
pub struct Peer {
    /// Where the peer's datagrams came from.
    pub addr: NetAddr,
    /// The port of the peer's secure-transport listener.
    pub port: u32,
    /// When the peer is presumed dead unless a sighting renews it.
    pub timeout: u64,
    /// `None` while alive; else the timeout that was in force when it died.
    pub death: Option<u64>,
}

/// A failure that ends the registry's task.
#[derive(Clone, Copy, Debug, PartialEq, Eq, Structural)]
pub enum PeerError {
    /// A new peer to be dialled announced a port that does not fit in 16 bits.
    PortOutOfRange(u32),
}

/// What the registry asks of its surroundings after one message.
#[derive(Clone, Copy, Debug, PartialEq, Eq, Structural)]
pub struct Effects {
    /// An outbound connection the transport connector should open.
    pub dial: Option<QuicTarget>,
    /// A death notice to deliver back to the registry once its `timeout` has
    /// passed.
    pub notice: Option<Peer>,
}

/// How a registry reconciles an incoming record with the one it holds.
#[derive(Clone, Copy, Debug, PartialEq, Eq, Structural)]
pub enum Step {
    /// Leave the record as it is and arm nothing.
    Ignore,
    /// The peer really died: record the death, arm nothing.
    Kill,
    /// Store the incoming record and arm its death notice.
    Store,
}

/// The reconciliation table.
pub open spec fn step_of(current: Option<Peer>, incoming: Peer) -> Step {
    match current {
        None => Step::Store,
        Some(c) => match (c.death, incoming.death) {
            (Some(_), Some(_)) => Step::Ignore,
            (None, Some(_)) => if c.timeout == incoming.timeout {
                Step::Kill
            } else {
                Step::Ignore
            },
            (Some(d), None) => if d <= incoming.timeout {
                Step::Store
            } else {
                Step::Ignore
            },
            (None, None) => Step::Store,
        },
    }
}

/// The record held for `id` in `peers`, if any.
pub open spec fn record_of(peers: Map<u128, Peer>, id: u128) -> Option<Peer> {
    if peers.contains_key(id) {
        Some(peers[id])
    } else {
        None
    }
}

/// The death notice armed for a stored record.
pub open spec fn notice_of(p: Peer) -> Peer {
    Peer { death: Some(p.timeout), ..p }
}

/// Whether a node with identifier `own` dials peer `id` on this message: the
/// peer is new to it and its own identifier is the smaller.
pub open spec fn dials(own: u128, peers: Map<u128, Peer>, id: u128) -> bool {
    !peers.contains_key(id) && own < id
}

/// Whether the message is refused: the peer must be dialled, and its port
/// cannot be.
pub open spec fn refused(own: u128, peers: Map<u128, Peer>, id: u128, incoming: Peer) -> bool {
    dials(own, peers, id) && incoming.port > u16::MAX
}

/// The registry's step for a message; its own identifier is never recorded.
pub open spec fn step_for(own: u128, peers: Map<u128, Peer>, id: u128, incoming: Peer) -> Step {
    if id == own {
        Step::Ignore
    } else {
        step_of(record_of(peers, id), incoming)
    }
}

/// The peers a registry holds after accepting a message.
pub open spec fn peers_after(own: u128, peers: Map<u128, Peer>, id: u128, incoming: Peer) -> Map<
    u128,
    Peer,
> {
    match step_for(own, peers, id, incoming) {
        Step::Ignore => peers,
        Step::Kill => peers.insert(id, Peer { death: incoming.death, ..peers[id] }),
        Step::Store => peers.insert(id, incoming),
    }
}

/// What a registry asks for after accepting a message.
pub open spec fn effects_after(own: u128, peers: Map<u128, Peer>, id: u128, incoming: Peer) -> Effects {
    Effects {
        dial: if id != own && dials(own, peers, id) {
            Some(QuicTarget { port: incoming.port as u16, addr: incoming.addr })
        } else {
            None
        },
        notice: if step_for(own, peers, id, incoming) == Step::Store {
            Some(notice_of(incoming))
        } else {
            None
        },
    }
}

/// Re-delivering the sighting a live peer was last stored with leaves its
/// record as it is and dials no one; only its death notice is armed again.
pub proof fn lemma_resighting_idempotent(own: u128, peers: Map<u128, Peer>, id: u128)
    requires
        peers.contains_key(id),
        peers[id].death is None,
    ensures
        peers_after(own, peers, id, peers[id]) == peers,
        effects_after(own, peers, id, peers[id]).dial is None,
        id != own ==> effects_after(own, peers, id, peers[id]).notice == Some(notice_of(peers[id])),
{
    assert(peers.insert(id, peers[id]) =~= peers);
}

/// When two nodes with distinct identifiers each sight the other for the
/// first time, exactly one of them asks to dial the other: the one with the
/// smaller identifier.
pub proof fn lemma_tie_break(
    a: u128,
    peers_a: Map<u128, Peer>,
    sighting_of_b: Peer,
    b: u128,
    peers_b: Map<u128, Peer>,
    sighting_of_a: Peer,
)
    requires
        a != b,
        !peers_a.contains_key(b),
        !peers_b.contains_key(a),
    ensures
        effects_after(a, peers_a, b, sighting_of_b).dial is Some != effects_after(
            b,
            peers_b,
            a,
            sighting_of_a,
        ).dial is Some,
        effects_after(a, peers_a, b, sighting_of_b).dial is Some <==> a < b,
{
}

/// A death notice kills a live peer only if no renewal moved its timeout
/// since the notice was armed: with the timeout still at `t0` the peer dies,
/// and after a renewal to a later `t1` the same notice is ignored and the
/// peer stays alive.
pub proof fn lemma_death_needs_agreement(
    own: u128,
    peers: Map<u128, Peer>,
    id: u128,
    renewal: Peer,
)
    requires
        id != own,
        peers.contains_key(id),
        peers[id].death is None,
        renewal.death is None,
        renewal.timeout > peers[id].timeout,
    ensures
        ({
            let died = peers_after(own, peers, id, notice_of(peers[id]));
            died[id].death == Some(peers[id].timeout)
        }),
        ({
            let renewed = peers_after(own, peers, id, renewal);
            let after = peers_after(own, renewed, id, notice_of(peers[id]));
            after == renewed && after[id] == renewal && after[id].death is None
        }),
{
}

/// A dead peer comes back only on a sighting whose timeout is not earlier
/// than its recorded death; a staler sighting leaves it dead.
pub proof fn lemma_resurrection_guard(own: u128, peers: Map<u128, Peer>, id: u128, incoming: Peer)
    requires
        id != own,
        peers.contains_key(id),
        peers[id].death is Some,
        incoming.death is None,
    ensures
        peers[id].death->0 <= incoming.timeout ==> peers_after(own, peers, id, incoming) == peers.insert(id, incoming),
        incoming.timeout < peers[id].death->0 ==> peers_after(own, peers, id, incoming) == peers,
{
}

/// A registry never records its own identifier, whatever it is sent.
pub proof fn lemma_own_id_ignored(own: u128, peers: Map<u128, Peer>, incoming: Peer)
    ensures
        peers_after(own, peers, own, incoming) == peers,
        effects_after(own, peers, own, incoming) == (Effects { dial: None, notice: None }),
{
}

/// The liveness state machine of one node: the record of every peer it has
/// sighted, keyed by identifier.
pub struct PeerTable {
    peers: HashMap<u128, Peer>,
    id: u128,
}

impl PeerTable {
    pub closed spec fn view(&self) -> Map<u128, Peer> {
        self.peers@
    }

    pub closed spec fn own_id(&self) -> u128 {
        self.id
    }

    /// The node's own identifier is never recorded.
    pub open spec fn wf(&self) -> bool {
        !self@.contains_key(self.own_id())
    }

    /// An empty registry for the node named `id`.
    pub fn new(id: u128) -> (r: PeerTable)
        ensures
            r@ == Map::<u128, Peer>::empty(),
            r.own_id() == id,
            r.wf(),
    {
        PeerTable { peers: HashMap::new(), id }
    }

    /// The node's own identifier.
    pub fn id(&self) -> (r: u128)
        ensures
            r == self.own_id(),
    {
        self.id
    }

    /// The record held for `id`, if any.
    pub fn get(&self, id: u128) -> (r: Option<Peer>)
        ensures
            r == record_of(self@, id),
    {
        match self.peers.get(&id) {
            Some(p) => Some(*p),
            None => None,
        }
    }

    /// Reconciles one sighting or death notice for peer `id` with the
    /// registry, and says whom to dial and which death notice to arm.
    pub fn observe(&mut self, id: u128, incoming: Peer) -> (r: Result<Effects, PeerError>)
        ensures
            final(self).own_id() == old(self).own_id(),
            old(self).wf() ==> final(self).wf(),
            r is Err <==> id != old(self).own_id() && refused(old(self).own_id(), old(self)@, id, incoming),
            r is Err ==> final(self)@ == old(self)@ && r == Err::<Effects, PeerError>(PeerError::PortOutOfRange(incoming.port)),
            r is Ok ==> final(self)@ == peers_after(old(self).own_id(), old(self)@, id, incoming)
                && r->Ok_0 == effects_after(old(self).own_id(), old(self)@, id, incoming),
    {
        if id == self.id {
            return Ok(Effects { dial: None, notice: None });
        }
        let current = self.get(id);
        let mut dial: Option<QuicTarget> = None;
        match current {
            Some(c) => {
                match (c.death, incoming.death) {
                    (Some(_), Some(_)) => {
                        return Ok(Effects { dial: None, notice: None });
                    },
                    (None, Some(_)) => {
                        if c.timeout == incoming.timeout {
                            self.peers.insert(id, Peer { death: incoming.death, ..c });
                        }
                        return Ok(Effects { dial: None, notice: None });
                    },
                    (Some(d), None) => {
                        if d > incoming.timeout {
                            return Ok(Effects { dial: None, notice: None });
                        }
                    },
                    (None, None) => {},
                }
            },
            None => {
                if self.id < id {
                    if incoming.port > u16::MAX as u32 {
                        return Err(PeerError::PortOutOfRange(incoming.port));
                    }
                    dial = Some(QuicTarget { port: incoming.port as u16, addr: incoming.addr });
                }
            },
        }
        self.peers.insert(id, incoming);
        Ok(Effects { dial, notice: Some(Peer { death: Some(incoming.timeout), ..incoming }) })
    }
}

impl Handler<(u128, Peer)> for PeerTable {
    type Reply = Result<Effects, PeerError>;

    fn handle(&mut self, message: (u128, Peer)) -> (r: Result<Effects, PeerError>)
        ensures
            final(self).own_id() == old(self).own_id(),
            old(self).wf() ==> final(self).wf(),
            r is Err <==> message.0 != old(self).own_id() && refused(old(self).own_id(), old(self)@, message.0, message.1),
            r is Err ==> final(self)@ == old(self)@ && r == Err::<Effects, PeerError>(PeerError::PortOutOfRange(message.1.port)),
            r is Ok ==> final(self)@ == peers_after(old(self).own_id(), old(self)@, message.0, message.1)
                && r->Ok_0 == effects_after(old(self).own_id(), old(self)@, message.0, message.1),
    {
        let (id, incoming) = message;
        self.observe(id, incoming)
    }
}

} // verus!
