use vstd::prelude::*;

verus! {

/// An IP address: IPv4 as four octets, or IPv6 as its 128-bit value.
///
/// The adapter only ever reads the ranges an address falls in, so the plain
/// numeric representation is all it needs; the caller converts between this
/// and whatever address type its transport uses.
#[derive(Clone, Copy, PartialEq, Eq, Structural, Debug)]
pub enum IpAddr {
    V4 { o0: u8, o1: u8, o2: u8, o3: u8 },
    V6 { bits: u128 },
}

impl IpAddr {
    /// Loopback: `127.0.0.0/8` for IPv4, `::1` for IPv6.
    pub open spec fn is_loopback_spec(self) -> bool {
        match self {
            IpAddr::V4 { o0, .. } => o0 == 127,
            IpAddr::V6 { bits } => bits == 1,
        }
    }

    /// Private ranges: `10.0.0.0/8`, `172.16.0.0/12`, `192.168.0.0/16` for
    /// IPv4, unique-local `fc00::/7` for IPv6.
    pub open spec fn is_private_spec(self) -> bool {
        match self {
            IpAddr::V4 { o0, o1, .. } => o0 == 10 || (o0 == 172 && 16 <= o1 <= 31) || (o0 == 192
                && o1 == 168),
            IpAddr::V6 { bits } => (bits >> 121) == 0x7e,
        }
    }

    pub fn v4(o0: u8, o1: u8, o2: u8, o3: u8) -> (r: Self)
        ensures
            r == (IpAddr::V4 { o0, o1, o2, o3 }),
    {
        IpAddr::V4 { o0, o1, o2, o3 }
    }

    pub fn v6(bits: u128) -> (r: Self)
        ensures
            r == (IpAddr::V6 { bits }),
    {
        IpAddr::V6 { bits }
    }

    pub fn is_loopback(&self) -> (b: bool)
        ensures
            b == self.is_loopback_spec(),
    {
        match self {
            IpAddr::V4 { o0, .. } => *o0 == 127,
            IpAddr::V6 { bits } => *bits == 1,
        }
    }

    pub fn is_private(&self) -> (b: bool)
        ensures
            b == self.is_private_spec(),
    {
        match self {
            IpAddr::V4 { o0, o1, .. } => *o0 == 10 || (*o0 == 172 && 16 <= *o1 && *o1 <= 31) || (
            *o0 == 192 && *o1 == 168),
            IpAddr::V6 { bits } => (*bits >> 121) == 0x7e,
        }
    }
}

/// A socket address: an IP address plus a port.
///
/// The adapter never chooses ports; every address it yields carries the
/// placeholder port zero, port selection being the caller's concern.
#[derive(Clone, Copy, PartialEq, Eq, Structural, Debug)]
pub struct SocketAddr {
    pub ip: IpAddr,
    pub port: u16,
}

impl SocketAddr {
    /// The socket address the adapter yields for a permitted IP address.
    pub open spec fn with_zero_port_spec(ip: IpAddr) -> SocketAddr {
        SocketAddr { ip, port: 0 }
    }

    pub fn with_zero_port(ip: IpAddr) -> (r: SocketAddr)
        ensures
            r == SocketAddr::with_zero_port_spec(ip),
    {
        SocketAddr { ip, port: 0 }
    }
}

} // verus!
