//! Flow identities: the four-tuple (plus protocol) that keys every live
//! TCP connection or UDP conversation.

use vstd::prelude::*;

verus! {

/// Transport protocol of a flow.
#[derive(Clone, Copy, PartialEq, Eq, Structural, Debug, Hash)]
pub enum Protocol {
    Tcp,
    Udp,
}

/// Unique key of a session: protocol plus both endpoints. Addresses are
/// IPv4 addresses in their 32-bit numeric form.
#[derive(Clone, Copy, PartialEq, Eq, Structural, Debug, Hash)]
pub struct FlowIdentity {
    pub protocol: Protocol,
    pub local_addr: u32,
    pub local_port: u16,
    pub remote_addr: u32,
    pub remote_port: u16,
}

/// Numeric value of the dotted-quad IPv4 address `a.b.c.d`.
pub open spec fn ipv4_value(a: u8, b: u8, c: u8, d: u8) -> int {
    a * 0x100_0000 + b * 0x1_0000 + c * 0x100 + d
}

/// Packs a dotted-quad IPv4 address into its 32-bit numeric form.
pub fn ipv4(a: u8, b: u8, c: u8, d: u8) -> (r: u32)
    ensures
        r == ipv4_value(a, b, c, d),
{
    (a as u32) * 0x100_0000 + (b as u32) * 0x1_0000 + (c as u32) * 0x100 + (d as u32)
}

impl FlowIdentity {
    /// Identity of an accepted TCP connection, from its two endpoints.
    pub fn tcp(local_addr: u32, local_port: u16, remote_addr: u32, remote_port: u16) -> (r:
        FlowIdentity)
        ensures
            r == (FlowIdentity {
                protocol: Protocol::Tcp,
                local_addr,
                local_port,
                remote_addr,
                remote_port,
            }),
    {
        FlowIdentity { protocol: Protocol::Tcp, local_addr, local_port, remote_addr, remote_port }
    }

    /// Identity of a UDP conversation, from the endpoints of one datagram.
    pub fn udp(local_addr: u32, local_port: u16, remote_addr: u32, remote_port: u16) -> (r:
        FlowIdentity)
        ensures
            r == (FlowIdentity {
                protocol: Protocol::Udp,
                local_addr,
                local_port,
                remote_addr,
                remote_port,
            }),
    {
        FlowIdentity { protocol: Protocol::Udp, local_addr, local_port, remote_addr, remote_port }
    }
}

} // verus!
