//! Address and socket-address values: plain data with constructors and accessors.
use vstd::prelude::*;

verus! {

/// A four-byte IPv4 address.
#[derive(Debug, Clone, Copy)]
pub struct Ipv4Addr {
    pub octets: [u8; 4],
}

impl Ipv4Addr {
    pub fn new(octets: [u8; 4]) -> (r: Ipv4Addr)
        ensures
            r.octets@ == octets@,
    {
        Ipv4Addr { octets }
    }

    /// The all-zero address.
    pub fn zero() -> (r: Ipv4Addr)
        ensures
            r.octets@ == seq![0u8, 0u8, 0u8, 0u8],
    {
        let r = Ipv4Addr { octets: [0u8, 0u8, 0u8, 0u8] };
        assert(r.octets@ =~= seq![0u8, 0u8, 0u8, 0u8]);
        r
    }

    pub fn octets(&self) -> (r: [u8; 4])
        ensures
            r@ == self.octets@,
    {
        self.octets
    }
}

impl From<[u8; 4]> for Ipv4Addr {
    fn from(octets: [u8; 4]) -> (r: Ipv4Addr) {
        Ipv4Addr { octets }
    }
}

impl vstd::std_specs::convert::FromSpecImpl<[u8; 4]> for Ipv4Addr {
    open spec fn obeys_from_spec() -> bool {
        true
    }

    open spec fn from_spec(octets: [u8; 4]) -> Ipv4Addr {
        Ipv4Addr { octets }
    }
}

/// A sixteen-byte IPv6 address.
#[derive(Debug, Clone, Copy)]
pub struct Ipv6Addr {
    pub octets: [u8; 16],
}

impl Ipv6Addr {
    pub fn new(octets: [u8; 16]) -> (r: Ipv6Addr)
        ensures
            r.octets@ == octets@,
    {
        Ipv6Addr { octets }
    }

    pub fn octets(&self) -> (r: [u8; 16])
        ensures
            r@ == self.octets@,
    {
        self.octets
    }
}

impl From<[u8; 16]> for Ipv6Addr {
    fn from(octets: [u8; 16]) -> (r: Ipv6Addr) {
        Ipv6Addr { octets }
    }
}

impl vstd::std_specs::convert::FromSpecImpl<[u8; 16]> for Ipv6Addr {
    open spec fn obeys_from_spec() -> bool {
        true
    }

    open spec fn from_spec(octets: [u8; 16]) -> Ipv6Addr {
        Ipv6Addr { octets }
    }
}

/// Either kind of IP address.
#[derive(Debug, Clone, Copy)]
pub enum IpAddr {
    V4(Ipv4Addr),
    V6(Ipv6Addr),
}

/// An IPv4 address and a port; port 0 is legal and means "any".
#[derive(Debug, Clone, Copy)]
pub struct SocketAddrV4 {
    pub ip: Ipv4Addr,
    pub port: u16,
}

impl SocketAddrV4 {
    pub fn new(ip: Ipv4Addr, port: u16) -> (r: SocketAddrV4)
        ensures
            r == (SocketAddrV4 { ip, port }),
    {
        SocketAddrV4 { ip, port }
    }

    pub fn ip(&self) -> (r: &Ipv4Addr)
        ensures
            *r == self.ip,
    {
        &self.ip
    }

    pub fn port(&self) -> (r: u16)
        ensures
            r == self.port,
    {
        self.port
    }
}

/// An IPv6 address and a port.
#[derive(Debug, Clone, Copy)]
pub struct SocketAddrV6 {
    pub ip: Ipv6Addr,
    pub port: u16,
}

impl SocketAddrV6 {
    pub fn new(ip: Ipv6Addr, port: u16) -> (r: SocketAddrV6)
        ensures
            r == (SocketAddrV6 { ip, port }),
    {
        SocketAddrV6 { ip, port }
    }

    pub fn ip(&self) -> (r: &Ipv6Addr)
        ensures
            *r == self.ip,
    {
        &self.ip
    }

    pub fn port(&self) -> (r: u16)
        ensures
            r == self.port,
    {
        self.port
    }
}

/// Either kind of socket address.
#[derive(Debug, Clone, Copy)]
pub enum SocketAddr {
    V4(SocketAddrV4),
    V6(SocketAddrV6),
}

} // verus!
