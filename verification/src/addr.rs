//! Socket addresses as plain values.

use vstd::prelude::*;

verus! {

/// An IP socket address: what a proxy listens on, or what an onion service forwards to.
#[derive(Debug, Clone, Copy, PartialEq, Eq, PartialOrd, Ord, Hash)]
pub enum SocketAddress {
    /// An IPv4 address, most significant octet first, and a port.
    V4 { octets: [u8; 4], port: u16 },
    /// An IPv6 address, most significant segment first, a port, and the flow and scope fields.
    V6 { segments: [u16; 8], port: u16, flowinfo: u32, scope_id: u32 },
}

impl SocketAddress {
    /// The port in the address.
    pub open spec fn spec_port(&self) -> u16 {
        match *self {
            SocketAddress::V4 { port, .. } => port,
            SocketAddress::V6 { port, .. } => port,
        }
    }

    /// An IPv4 socket address.
    pub fn v4(a: u8, b: u8, c: u8, d: u8, port: u16) -> (addr: Self)
        ensures
            addr == (SocketAddress::V4 { octets: [a, b, c, d], port }),
    {
        SocketAddress::V4 { octets: [a, b, c, d], port }
    }

    /// An IPv6 socket address with flow and scope fields of zero.
    pub fn v6(segments: [u16; 8], port: u16) -> (addr: Self)
        ensures
            addr == (SocketAddress::V6 { segments, port, flowinfo: 0, scope_id: 0 }),
    {
        SocketAddress::V6 { segments, port, flowinfo: 0, scope_id: 0 }
    }

    /// The port in the address.
    #[verifier::when_used_as_spec(spec_port)]
    pub fn port(&self) -> (port: u16)
        ensures
            port == self.spec_port(),
    {
        match self {
            SocketAddress::V4 { port, .. } => *port,
            SocketAddress::V6 { port, .. } => *port,
        }
    }
}

} // verus!
