//! Network addresses as plain values.

use vstd::prelude::*;

verus! {

/// An IPv4 address: its four bytes.
#[derive(Clone, Copy, Debug)]
pub struct Ipv4Addr(pub [u8; 4]);

/// An IPv6 address: its sixteen bytes.
#[derive(Clone, Copy, Debug)]
pub struct Ipv6Addr(pub [u8; 16]);

/// An IP address of either family.
#[derive(Clone, Copy, Debug)]
pub enum IpAddr {
    V4(Ipv4Addr),
    V6(Ipv6Addr),
}

/// An IP address with a port.
#[derive(Clone, Copy, Debug)]
pub struct SocketAddr {
    pub ip: IpAddr,
    pub port: u16,
}

impl SocketAddr {
    /// The address `ip` with `port`.
    pub fn new(ip: IpAddr, port: u16) -> (addr: SocketAddr)
        ensures
            addr.ip == ip,
            addr.port == port,
    {
        SocketAddr { ip, port }
    }
}

/// The two local addresses a connection may bind to, one for each family.
pub open spec fn split_address(addr: Option<IpAddr>) -> (Option<Ipv4Addr>, Option<Ipv6Addr>) {
    match addr {
        Some(IpAddr::V4(a)) => (Some(a), None),
        Some(IpAddr::V6(a)) => (None, Some(a)),
        None => (None, None),
    }
}

/// Sorts a local address into the slot of its family.
pub fn split_local_address(addr: Option<IpAddr>) -> (pair: (Option<Ipv4Addr>, Option<Ipv6Addr>))
    ensures
        pair == split_address(addr),
{
    match addr {
        Some(IpAddr::V4(a)) => (Some(a), None),
        Some(IpAddr::V6(a)) => (None, Some(a)),
        None => (None, None),
    }
}

} // verus!
