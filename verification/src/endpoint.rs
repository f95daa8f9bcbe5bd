use vstd::prelude::*;

verus! {

/// The IPv4 loopback address, octets packed big-endian.
pub const LOOPBACK_IP: u32 = 0x7F00_0001;

/// A socket binding target or a peer: an IPv4 address (its four octets packed
/// big-endian into a `u32`) and a port. The caller's socket layer converts
/// between this and its own address type.
#[derive(Clone, Copy, PartialEq, Eq, Structural, Debug)]
pub struct Endpoint {
    pub ip: u32,
    pub port: u16,
}

impl Endpoint {
    /// The loopback endpoint at the given port.
    pub fn loopback(port: u16) -> (r: Endpoint)
        ensures
            r.ip == LOOPBACK_IP,
            r.port == port,
    {
        Endpoint { ip: LOOPBACK_IP, port }
    }
}

} // verus!
