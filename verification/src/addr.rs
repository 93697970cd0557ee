//! Network endpoints held as plain values, so that the logic that routes
//! packets and picks bind addresses can be verified. The unverified shell
//! converts these to and from the operating system's socket address types.

use vstd::prelude::*;

verus! {

/// An IP address, version 4 or 6, as plain integers.
#[derive(Clone, Copy, Debug, PartialEq, Eq, Structural)]
pub enum IpAddress {
    V4(u8, u8, u8, u8),
    V6(u16, u16, u16, u16, u16, u16, u16, u16),
}

/// A UDP endpoint: an IP address together with a port.
#[derive(Clone, Copy, Debug, PartialEq, Eq, Structural)]
pub struct Endpoint {
    pub ip: IpAddress,
    pub port: u16,
}

impl IpAddress {
    /// Whether this is a version-4 address.
    pub fn is_v4(&self) -> (r: bool)
        ensures
            r == (self is V4),
    {
        match self {
            IpAddress::V4(..) => true,
            IpAddress::V6(..) => false,
        }
    }
}

/// The all-zero, unspecified address of the given family, used when binding
/// without caring which local interface is chosen.
pub open spec fn unspecified_address(v4: bool) -> IpAddress {
    if v4 {
        IpAddress::V4(0, 0, 0, 0)
    } else {
        IpAddress::V6(0, 0, 0, 0, 0, 0, 0, 0)
    }
}

/// The local endpoint a client binds before talking to `server`: the
/// unspecified address of the same family as the server's, with port zero so
/// the operating system assigns an ephemeral port.
pub fn ephemeral_bind_endpoint(server: &Endpoint) -> (b: Endpoint)
    ensures
        b.port == 0,
        b.ip == unspecified_address(server.ip is V4),
        b.ip is V4 <==> server.ip is V4,
{
    let ip = if server.ip.is_v4() {
        IpAddress::V4(0, 0, 0, 0)
    } else {
        IpAddress::V6(0, 0, 0, 0, 0, 0, 0, 0)
    };
    Endpoint { ip, port: 0 }
}

} // verus!
