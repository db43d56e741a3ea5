use vstd::prelude::*;

verus! {

/// A socket address held as plain values: the IP as a big-endian integer and the port.
#[derive(Clone, Copy, Debug, PartialEq, Eq, Structural)]
pub enum SocketAddress {
    V4(u32, u16),
    V6(u128, u16),
}

/// The address family of an outbound socket.
#[derive(Clone, Copy, Debug, PartialEq, Eq, Structural)]
pub enum AddressFamily {
    V4,
    V6,
}

/// A target named in a command: a literal socket address, or a domain name and a port.
#[derive(Clone, Debug, PartialEq, Eq)]
pub enum TargetAddress {
    Socket(SocketAddress),
    Domain(Vec<u8>, u16),
}

/// The unspecified address `0.0.0.0:0`, sent with every reply that carries no bound address.
pub open spec fn spec_unspecified() -> SocketAddress {
    SocketAddress::V4(0, 0)
}

pub open spec fn spec_family(a: SocketAddress) -> AddressFamily {
    match a {
        SocketAddress::V4(..) => AddressFamily::V4,
        SocketAddress::V6(..) => AddressFamily::V6,
    }
}

/// The address that a resolution yielding `addrs` leads to: the first one, if any.
pub open spec fn spec_first(addrs: Seq<SocketAddress>) -> Option<SocketAddress> {
    if addrs.len() == 0 {
        None
    } else {
        Some(addrs[0])
    }
}

impl SocketAddress {
    /// The unspecified IPv4 address with port 0.
    pub fn unspecified() -> (r: SocketAddress)
        ensures
            r == spec_unspecified(),
    {
        SocketAddress::V4(0, 0)
    }

    /// The family of socket that reaches this address.
    pub fn family(&self) -> (r: AddressFamily)
        ensures
            r == spec_family(*self),
    {
        match self {
            SocketAddress::V4(..) => AddressFamily::V4,
            SocketAddress::V6(..) => AddressFamily::V6,
        }
    }
}

/// Picks the address that a connection uses out of the result of a name
/// lookup: the first one, whatever the number of addresses returned.
pub fn first_resolved(addrs: &Vec<SocketAddress>) -> (r: Option<SocketAddress>)
    ensures
        r == spec_first(addrs@),
{
    if addrs.len() == 0 {
        None
    } else {
        Some(addrs[0])
    }
}

} // verus!
