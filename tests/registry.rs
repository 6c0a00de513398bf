use netnet::net::NetAddr;
use netnet::peers::{Effects, Peer, PeerError, PeerTable, PEER_TTL_MS};
use netnet::actor::Handler;
use netnet::ping::{Ping, PingSink, PingStream, BEACON_INTERVAL_MS, BROADCAST_IP};
use netnet::quic::{Quic, QuicTarget};

fn addr(ip: u32, port: u16) -> NetAddr {
    NetAddr::new(ip, port)
}

fn alive(port: u32, timeout: u64) -> Peer {
    Peer { addr: addr(0x0A00_0002, 8080), port, timeout, death: None }
}

fn notice(p: Peer) -> Peer {
    Peer { death: Some(p.timeout), ..p }
}

#[test]
fn resighting_leaves_record_unchanged() {
    let mut t = PeerTable::new(9);
    let p = alive(4000, 100);
    t.observe(5, p).unwrap();
    let e = t.observe(5, p).unwrap();
    assert_eq!(t.get(5), Some(p));
    assert_eq!(e.dial, None);
    assert_eq!(e.notice, Some(notice(p)));
}

#[test]
fn smaller_identifier_dials() {
    let a_id: u128 = 3;
    let b_id: u128 = 7;
    let mut a = PeerTable::new(a_id);
    let mut b = PeerTable::new(b_id);
    let pa = Peer { addr: addr(1, 8080), port: 5001, timeout: 10, death: None };
    let pb = Peer { addr: addr(2, 8080), port: 5002, timeout: 10, death: None };
    let ea = a.observe(b_id, pb).unwrap();
    let eb = b.observe(a_id, pa).unwrap();
    assert_eq!(ea.dial, Some(QuicTarget { port: 5002, addr: addr(2, 8080) }));
    assert_eq!(eb.dial, None);
    // a second sighting dials no one
    let again = a.observe(b_id, pb).unwrap();
    assert_eq!(again.dial, None);
}

#[test]
fn death_notice_with_same_timeout_kills() {
    let mut t = PeerTable::new(1);
    let p = alive(4000, 100);
    let e = t.observe(5, p).unwrap();
    let n = e.notice.unwrap();
    assert_eq!(n, notice(p));
    let e2 = t.observe(5, n).unwrap();
    assert_eq!(e2, Effects { dial: None, notice: None });
    assert_eq!(t.get(5).unwrap().death, Some(100));
}

#[test]
fn death_notice_after_renewal_is_ignored() {
    let mut t = PeerTable::new(1);
    let p0 = alive(4000, 100);
    let n0 = t.observe(5, p0).unwrap().notice.unwrap();
    let p1 = alive(4000, 200);
    t.observe(5, p1).unwrap();
    t.observe(5, n0).unwrap();
    assert_eq!(t.get(5), Some(p1));
}

#[test]
fn duplicate_death_notice_is_ignored() {
    let mut t = PeerTable::new(1);
    let p = alive(4000, 100);
    let n = t.observe(5, p).unwrap().notice.unwrap();
    t.observe(5, n).unwrap();
    let e = t.observe(5, Peer { death: Some(500), timeout: 500, ..p }).unwrap();
    assert_eq!(e, Effects { dial: None, notice: None });
    assert_eq!(t.get(5).unwrap().death, Some(100));
}

#[test]
fn resurrection_needs_later_timeout() {
    let mut t = PeerTable::new(1);
    let p = alive(4000, 100);
    let n = t.observe(5, p).unwrap().notice.unwrap();
    t.observe(5, n).unwrap();
    // stale sighting: its timeout is before the death
    let stale = alive(4000, 99);
    let e = t.observe(5, stale).unwrap();
    assert_eq!(e, Effects { dial: None, notice: None });
    assert_eq!(t.get(5).unwrap().death, Some(100));
    // equal timeout is accepted
    let fresh = alive(4001, 100);
    let e = t.observe(5, fresh).unwrap();
    assert_eq!(t.get(5), Some(fresh));
    assert_eq!(e.notice, Some(notice(fresh)));
    assert_eq!(e.dial, None);
}

#[test]
fn own_identifier_is_never_recorded() {
    let mut t = PeerTable::new(42);
    let e = t.observe(42, alive(4000, 100)).unwrap();
    assert_eq!(e, Effects { dial: None, notice: None });
    assert_eq!(t.get(42), None);
}

#[test]
fn port_out_of_range_is_refused() {
    let mut t = PeerTable::new(1);
    let p = alive(70_000, 100);
    assert_eq!(t.observe(5, p), Err(PeerError::PortOutOfRange(70_000)));
    assert_eq!(t.get(5), None);
    // a peer this node does not dial may announce any port
    let mut u = PeerTable::new(9);
    assert!(u.observe(5, p).is_ok());
    assert_eq!(u.get(5), Some(p));
}

#[test]
fn death_notice_for_unknown_peer_is_stored() {
    let mut t = PeerTable::new(9);
    let n = notice(alive(4000, 100));
    let e = t.observe(5, n).unwrap();
    assert_eq!(t.get(5), Some(n));
    assert_eq!(e.notice, Some(n));
}

#[test]
fn beacon_carries_port_and_identifier_text() {
    let sink = PingSink::new(0x0123_4567_89ab_cdef_0011_2233_4455_6677, 8080, 5555);
    let b = sink.beacon();
    assert_eq!(b.port, 5555);
    assert_eq!(b.uuid, "01234567-89ab-cdef-0011-223344556677");
    assert_eq!(sink.destination(), addr(BROADCAST_IP, 8080));
    assert_eq!(BEACON_INTERVAL_MS, 1000);
}

#[test]
fn own_echo_is_suppressed() {
    let own: u128 = 0xfeed;
    let sink = PingSink::new(own, 8080, 5555);
    let stream = PingStream::new(own);
    let r = stream.receive(&sink.beacon(), addr(1, 8080), 0);
    assert_eq!(r, None);
    // the same identifier written in capitals is still this node's
    let upper = Ping { port: 5555, uuid: "00000000-0000-0000-0000-00000000FEED".to_string() };
    assert_eq!(stream.receive(&upper, addr(1, 8080), 0), None);
}

#[test]
fn foreign_beacon_becomes_sighting() {
    let stream = PingStream::new(1);
    let ping = Ping { port: 4433, uuid: "00000000-0000-0000-0000-000000000002".to_string() };
    let r = stream.receive(&ping, addr(0x0A00_0003, 8080), 1_000);
    assert_eq!(
        r,
        Some((2, Peer { addr: addr(0x0A00_0003, 8080), port: 4433, timeout: 11_000, death: None }))
    );
    assert_eq!(PEER_TTL_MS, 10_000);
}

#[test]
fn bad_identifier_is_dropped() {
    let stream = PingStream::new(1);
    let ping = Ping { port: 4433, uuid: "not-an-identifier".to_string() };
    assert_eq!(stream.receive(&ping, addr(1, 8080), 0), None);
}

#[test]
fn connection_map_keeps_one_per_address() {
    let mut q: Quic<&str> = Quic::new();
    let a = addr(0x0A00_0002, 5000);
    let b = addr(0x0A00_0002, 5001);
    assert!(!q.contains(a));
    q.record(a, "first");
    q.record(a, "second");
    assert!(q.contains(a));
    assert!(!q.contains(b));
    let t = QuicTarget { port: 5001, addr: addr(0x0A00_0002, 8080) };
    assert_eq!(t.dial_addr(), b);
}

#[test]
fn two_nodes_discover_connect_and_expire() {
    let x_id: u128 = 1;
    let y_id: u128 = u128::MAX;
    let x_addr = addr(0x0A00_0001, 8080);
    let y_addr = addr(0x0A00_0002, 8080);
    let x_sink = PingSink::new(x_id, 8080, 6001);
    let y_sink = PingSink::new(y_id, 8080, 6002);
    let x_stream = PingStream::new(x_id);
    let y_stream = PingStream::new(y_id);
    let mut x_peers = PeerTable::new(x_id);
    let mut y_peers = PeerTable::new(y_id);
    let mut y_conns: Quic<u32> = Quic::new();

    // both beacons arrive within the first interval
    let (id, p) = y_stream.receive(&x_sink.beacon(), x_addr, 500).unwrap();
    assert_eq!(id, x_id);
    let ey = y_peers.observe(id, p).unwrap();
    assert_eq!(ey.dial, None);
    let (id, p) = x_stream.receive(&y_sink.beacon(), y_addr, 700).unwrap();
    assert_eq!(id, y_id);
    let ex = x_peers.observe(id, p).unwrap();
    let target = ex.dial.unwrap();
    assert_eq!(target.dial_addr(), addr(0x0A00_0002, 6002));

    // Y accepts the one inbound connection from X's address
    y_conns.record(addr(x_addr.ip, 40_000), 7);
    assert!(y_conns.contains(addr(x_addr.ip, 40_000)));

    // no further beacons: both armed notices fire
    let nx = ex.notice.unwrap();
    let ny = ey.notice.unwrap();
    assert_eq!(nx.timeout, 10_700);
    assert_eq!(ny.timeout, 10_500);
    x_peers.observe(y_id, nx).unwrap();
    y_peers.observe(x_id, ny).unwrap();
    assert_eq!(x_peers.get(y_id).unwrap().death, Some(10_700));
    assert_eq!(y_peers.get(x_id).unwrap().death, Some(10_500));
}

#[test]
fn handlers_apply_messages() {
    let mut t = PeerTable::new(1);
    let p = alive(4000, 100);
    let e = t.handle((5, p)).unwrap();
    assert_eq!(e.dial, Some(QuicTarget { port: 4000, addr: p.addr }));
    assert_eq!(e.notice, Some(notice(p)));
    t.handle((5, notice(p))).unwrap();
    assert_eq!(t.get(5).unwrap().death, Some(100));
    assert_eq!(t.handle((6, alive(70_000, 100))), Err(PeerError::PortOutOfRange(70_000)));

    let mut q: Quic<u8> = Quic::new();
    let a = addr(0x0A00_0002, 5000);
    q.handle((a, 1));
    assert!(q.contains(a));
    assert!(!q.contains(addr(0x0A00_0002, 5001)));
}
