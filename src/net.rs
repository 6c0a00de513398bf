use vstd::prelude::*;

verus! {

/// An IPv4 socket address: the address as a big-endian 32-bit value, and a port.
#[derive(Clone, Copy, Debug, PartialEq, Eq, Structural)]
pub struct NetAddr {
    pub ip: u32,
    pub port: u16,
}

impl NetAddr {
    pub fn new(ip: u32, port: u16) -> (r: NetAddr)
        ensures
            r.ip == ip,
            r.port == port,
    {
        NetAddr { ip, port }
    }
}

} // verus!
