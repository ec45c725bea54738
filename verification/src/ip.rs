//! Internet-layer address values, held as plain integers so that every
//! computation on them (multicast tests, broadcast derivation, family
//! dispatch) is ordinary verified arithmetic.

use vstd::prelude::*;

verus! {

/// An IPv4 address as its 32-bit numeric value (network byte order
/// interpreted as a big-endian integer, so `192.168.1.10` is
/// `0xc0a8_010a`).
#[derive(Clone, Copy, Debug, PartialEq, Eq, Structural)]
pub struct Ipv4Addr {
    pub bits: u32,
}

impl Ipv4Addr {
    /// The numeric value of the four dotted octets.
    pub open spec fn spec_from_octets(a: u8, b: u8, c: u8, d: u8) -> Ipv4Addr {
        Ipv4Addr { bits: (a * 0x100_0000 + b * 0x1_0000 + c * 0x100 + d) as u32 }
    }

    pub fn from_octets(a: u8, b: u8, c: u8, d: u8) -> (r: Ipv4Addr)
        ensures
            r == Ipv4Addr::spec_from_octets(a, b, c, d),
    {
        Ipv4Addr { bits: (a as u32) * 0x100_0000 + (b as u32) * 0x1_0000 + (c as u32) * 0x100 + (d as u32) }
    }

    /// Multicast addresses are `224.0.0.0/4`: the top four bits are `1110`.
    pub open spec fn spec_is_multicast(self) -> bool {
        self.bits & 0xf000_0000 == 0xe000_0000
    }

    pub fn is_multicast(self) -> (r: bool)
        ensures
            r == self.spec_is_multicast(),
    {
        self.bits & 0xf000_0000 == 0xe000_0000
    }
}

/// The four bytes of an IPv4 address in network order.
pub open spec fn spec_v4_octets(address: Ipv4Addr) -> Seq<u8> {
    seq![
        (address.bits >> 24) as u8,
        ((address.bits >> 16) & 0xff) as u8,
        ((address.bits >> 8) & 0xff) as u8,
        (address.bits & 0xff) as u8,
    ]
}

/// Emit the four bytes of an IPv4 address in network order.
pub fn v4_octets(address: Ipv4Addr) -> (r: Vec<u8>)
    ensures
        r@ == spec_v4_octets(address),
{
    let mut bytes: Vec<u8> = Vec::new();
    bytes.push((address.bits >> 24) as u8);
    bytes.push(((address.bits >> 16) & 0xff) as u8);
    bytes.push(((address.bits >> 8) & 0xff) as u8);
    bytes.push((address.bits & 0xff) as u8);
    proof {
        assert(bytes@ =~= spec_v4_octets(address));
    }
    bytes
}

/// An IPv6 address as its 128-bit numeric value.
#[derive(Clone, Copy, Debug, PartialEq, Eq, Structural)]
pub struct Ipv6Addr {
    pub bits: u128,
}

impl Ipv6Addr {
    /// Multicast addresses are `ff00::/8`: the top byte is `0xff`.
    pub open spec fn spec_is_multicast(self) -> bool {
        self.bits & 0xff00_0000_0000_0000_0000_0000_0000_0000 == 0xff00_0000_0000_0000_0000_0000_0000_0000
    }

    pub fn is_multicast(self) -> (r: bool)
        ensures
            r == self.spec_is_multicast(),
    {
        self.bits & 0xff00_0000_0000_0000_0000_0000_0000_0000 == 0xff00_0000_0000_0000_0000_0000_0000_0000
    }
}

/// The sixteen bytes of an IPv6 address in network order.
pub open spec fn spec_v6_octets(address: Ipv6Addr) -> Seq<u8> {
    Seq::new(16, |i: int| (address.bits >> ((15 - i) * 8)) as u8)
}

/// Emit the sixteen bytes of an IPv6 address in network order.
pub fn v6_octets(address: Ipv6Addr) -> (r: Vec<u8>)
    ensures
        r@ == spec_v6_octets(address),
{
    let mut bytes: Vec<u8> = Vec::new();
    let mut i: usize = 0;
    while i < 16
        invariant
            i <= 16,
            bytes@.len() == i,
            forall|j: int| 0 <= j < i ==> bytes@[j] == (address.bits >> ((15 - j) * 8)) as u8,
        decreases 16 - i,
    {
        let shift: u32 = ((15 - i) * 8) as u32;
        bytes.push((address.bits >> shift) as u8);
        i += 1;
    }
    proof {
        assert(bytes@ =~= spec_v6_octets(address));
    }
    bytes
}

/// An IP address of either family.
#[derive(Clone, Copy, Debug, PartialEq, Eq, Structural)]
pub enum IpAddr {
    V4(Ipv4Addr),
    V6(Ipv6Addr),
}

impl IpAddr {
    pub open spec fn spec_is_ipv4(self) -> bool {
        self is V4
    }

    pub open spec fn spec_is_ipv6(self) -> bool {
        self is V6
    }

    pub fn is_ipv4(&self) -> (r: bool)
        ensures
            r == self.spec_is_ipv4(),
    {
        matches!(self, IpAddr::V4(_))
    }

    pub fn is_ipv6(&self) -> (r: bool)
        ensures
            r == self.spec_is_ipv6(),
    {
        matches!(self, IpAddr::V6(_))
    }
}

/// The netlink address families this library dispatches on.
#[derive(Clone, Copy, Debug, PartialEq, Eq, Structural)]
pub enum AddressFamily {
    Unspec,
    Inet,
    Inet6,
    Bridge,
    Mpls,
}

/// One MPLS label stack entry.
#[derive(Clone, Copy, Debug, PartialEq, Eq, Structural)]
pub struct MplsLabel {
    pub label: u32,
    pub traffic_class: u8,
    pub bottom_of_stack: bool,
    pub ttl: u8,
}

} // verus!
