//! Network addresses as plain values.

use vstd::prelude::*;

verus! {

/// An IPv4 address, given by its four octets in network order.
#[derive(Clone, Copy, Debug, PartialEq, Eq, Structural)]
pub struct Ipv4Address {
    pub a: u8,
    pub b: u8,
    pub c: u8,
    pub d: u8,
}

impl Ipv4Address {
    /// The address `a.b.c.d`.
    pub fn new(a: u8, b: u8, c: u8, d: u8) -> (ip: Ipv4Address)
        ensures
            ip == (Ipv4Address { a, b, c, d }),
    {
        Ipv4Address { a, b, c, d }
    }
}

/// An IPv6 address, given as its 128 bits in network order.
#[derive(Clone, Copy, Debug, PartialEq, Eq, Structural)]
pub struct Ipv6Address {
    pub bits: u128,
}

/// A socket address of either family: the peer of an inbound connection, or
/// the endpoint that connections are forwarded to.
#[derive(Clone, Copy, Debug, PartialEq, Eq, Structural)]
#[allow(inconsistent_fields)]
pub enum SocketAddress {
    V4 { ip: Ipv4Address, port: u16 },
    V6 { ip: Ipv6Address, port: u16, flowinfo: u32, scope_id: u32 },
}

impl SocketAddress {
    /// The IPv4 address of this socket address, if it has one.
    pub open spec fn ipv4_of(self) -> Option<Ipv4Address> {
        match self {
            SocketAddress::V4 { ip, .. } => Some(ip),
            SocketAddress::V6 { .. } => None,
        }
    }

    /// The IPv4 address of this socket address; `None` for any other family.
    pub fn ipv4(&self) -> (ip: Option<Ipv4Address>)
        ensures
            ip == self.ipv4_of(),
    {
        match self {
            SocketAddress::V4 { ip, .. } => Some(*ip),
            SocketAddress::V6 { .. } => None,
        }
    }

    /// The port of this socket address.
    pub fn port(&self) -> (port: u16)
        ensures
            port == match *self {
                SocketAddress::V4 { port, .. } => port,
                SocketAddress::V6 { port, .. } => port,
            },
    {
        match self {
            SocketAddress::V4 { port, .. } => *port,
            SocketAddress::V6 { port, .. } => *port,
        }
    }
}

} // verus!
