use std::collections::HashMap;

use vstd::prelude::*;

use crate::actor::Handler;
use crate::net::NetAddr;

verus! {

broadcast use vstd::std_specs::hash::group_hash_axioms;

/// A request to open a secure connection to a peer's listener.
#[derive(Clone, Copy, Debug, PartialEq, Eq, Structural)]
pub struct QuicTarget {
    pub port: u16,
    pub addr: NetAddr,
}

impl QuicTarget {
    /// The address to dial: the peer's host with its announced listener port.
    pub fn dial_addr(&self) -> (r: NetAddr)
        ensures
            r == (NetAddr { ip: self.addr.ip, port: self.port }),
    {
        NetAddr { ip: self.addr.ip, port: self.port }
    }
}

/// The key a connection is filed under: the remote address and port.
pub open spec fn addr_key(a: NetAddr) -> u64 {
    (a.ip as int * 0x10000 + a.port as int) as u64
}

/// Distinct addresses are filed under distinct keys.
pub proof fn lemma_addr_key_injective(a: NetAddr, b: NetAddr)
    ensures
        addr_key(a) == addr_key(b) ==> a == b,
{
    assert(a.ip as int * 0x10000 + a.port as int <= u64::MAX);
    assert(b.ip as int * 0x10000 + b.port as int <= u64::MAX);
    if addr_key(a) == addr_key(b) {
        assert(a.ip == b.ip && a.port == b.port) by (nonlinear_arith)
            requires
                a.ip as int * 0x10000 + a.port as int == b.ip as int * 0x10000 + b.port as int,
                a.port < 0x10000,
                b.port < 0x10000,
        ;
    }
}

/// The connection map of the transport connector: at most one established
/// connection `C` per remote address.
pub struct Quic<C> {
    conns: HashMap<u64, C>,
}

impl<C> Quic<C> {
    pub closed spec fn view(&self) -> Map<u64, C> {
        self.conns@
    }

    /// The connection held for `a`, if any.
    pub open spec fn conn_of(&self, a: NetAddr) -> Option<C> {
        if self@.contains_key(addr_key(a)) {
            Some(self@[addr_key(a)])
        } else {
            None
        }
    }

    pub fn new() -> (r: Quic<C>)
        ensures
            r@ == Map::<u64, C>::empty(),
    {
        Quic { conns: HashMap::new() }
    }

    fn key(a: NetAddr) -> (r: u64)
        ensures
            r == addr_key(a),
    {
        (a.ip as u64) * 0x10000 + (a.port as u64)
    }

    /// Records a connection established with `remote`, replacing any earlier
    /// one with the same address.
    pub fn record(&mut self, remote: NetAddr, conn: C)
        ensures
            final(self)@ == old(self)@.insert(addr_key(remote), conn),
            final(self).conn_of(remote) == Some(conn),
            forall|a: NetAddr| a != remote ==> final(self).conn_of(a) == old(self).conn_of(a),
    {
        let k = Self::key(remote);
        self.conns.insert(k, conn);
        assert forall|a: NetAddr| a != remote implies self.conn_of(a) == old(self).conn_of(a) by {
            lemma_addr_key_injective(a, remote);
        }
    }

    /// Whether a connection with `remote` is established.
    pub fn contains(&self, remote: NetAddr) -> (r: bool)
        ensures
            r == self.conn_of(remote) is Some,
    {
        self.conns.contains_key(&Self::key(remote))
    }
}

impl<C> Handler<(NetAddr, C)> for Quic<C> {
    type Reply = ();

    fn handle(&mut self, message: (NetAddr, C))
        ensures
            final(self)@ == old(self)@.insert(addr_key(message.0), message.1),
            final(self).conn_of(message.0) == Some(message.1),
            forall|a: NetAddr| a != message.0 ==> final(self).conn_of(a) == old(self).conn_of(a),
    {
        let (remote, conn) = message;
        self.record(remote, conn);
    }
}

} // verus!
