//! Route messages: the `rtmsg` header and the `RTA_*` attributes.

use vstd::prelude::*;
use crate::ip::{AddressFamily, Ipv4Addr, Ipv6Addr, MplsLabel};
use crate::packet_route::link::DefaultNla;

verus! {

/// `RT_TABLE_UNSPEC`.
pub const RT_TABLE_UNSPEC: u8 = 0;
/// `RT_TABLE_MAIN`: the default routing table.
pub const RT_TABLE_MAIN: u8 = 254;

/// `RTNH_F_ONLINK` as a bit of the route header flags: the next hop is
/// reachable without passing through a connected subnet.
pub const ROUTE_FLAG_ONLINK: u32 = 0x4;

/// Routing protocol that installed the route.
#[derive(Clone, Copy, Debug, PartialEq, Eq, Structural)]
pub enum RouteProtocol {
    Unspec,
    IcmpRedirect,
    Kernel,
    Boot,
    Static,
    Other(u8),
}

/// Distance to the destination.
#[derive(Clone, Copy, Debug, PartialEq, Eq, Structural)]
pub enum RouteScope {
    Universe,
    Site,
    Link,
    Host,
    NoWhere,
    Other(u8),
}

/// The type of a route (also used for neighbour entries).
#[derive(Clone, Copy, Debug, PartialEq, Eq, Structural)]
pub enum RouteType {
    Unspec,
    Unicast,
    Local,
    Broadcast,
    Anycast,
    Multicast,
    BlackHole,
    Unreachable,
    Prohibit,
    Throw,
    Nat,
    Other(u8),
}

/// The fixed header of a route message.
#[derive(Clone, Copy, Debug, PartialEq, Eq, Structural)]
pub struct RouteHeader {
    pub address_family: AddressFamily,
    pub destination_prefix_length: u8,
    pub source_prefix_length: u8,
    pub tos: u8,
    pub table: u8,
    pub protocol: RouteProtocol,
    pub scope: RouteScope,
    pub kind: RouteType,
    pub flags: u32,
}

impl RouteHeader {
    pub open spec fn spec_default() -> RouteHeader {
        RouteHeader {
            address_family: AddressFamily::Unspec,
            destination_prefix_length: 0,
            source_prefix_length: 0,
            tos: 0,
            table: RT_TABLE_UNSPEC,
            protocol: RouteProtocol::Unspec,
            scope: RouteScope::Universe,
            kind: RouteType::Unspec,
            flags: 0,
        }
    }

    pub fn new() -> (r: RouteHeader)
        ensures
            r == RouteHeader::spec_default(),
    {
        RouteHeader {
            address_family: AddressFamily::Unspec,
            destination_prefix_length: 0,
            source_prefix_length: 0,
            tos: 0,
            table: RT_TABLE_UNSPEC,
            protocol: RouteProtocol::Unspec,
            scope: RouteScope::Universe,
            kind: RouteType::Unspec,
            flags: 0,
        }
    }
}

/// An address carried in a route attribute.
#[derive(Clone, Debug, PartialEq, Eq)]
pub enum RouteAddress {
    Inet(Ipv4Addr),
    Inet6(Ipv6Addr),
    Mpls(MplsLabel),
    Other(Vec<u8>),
}

/// A next-hop address of a family other than the route's own.
#[derive(Clone, Copy, Debug, PartialEq, Eq, Structural)]
pub enum RouteVia {
    Inet(Ipv4Addr),
    Inet6(Ipv6Addr),
}

/// Lightweight tunnel encapsulation type.
#[derive(Clone, Copy, Debug, PartialEq, Eq, Structural)]
pub enum RouteLwEnCapType {
    /// `LWTUNNEL_ENCAP_NONE`.
    Unset,
    Mpls,
    Other(u16),
}

/// MPLS tunnel parameters.
#[derive(Clone, Debug, PartialEq, Eq)]
pub enum RouteMplsIpTunnel {
    Destination(Vec<MplsLabel>),
    Ttl(u8),
}

/// One lightweight tunnel encapsulation attribute.
#[derive(Clone, Debug, PartialEq, Eq)]
pub enum RouteLwTunnelEncap {
    Mpls(RouteMplsIpTunnel),
}

/// `RTNH_F_ONLINK` as a bit of one next hop's flags.
pub const ROUTE_NEXT_HOP_FLAG_ONLINK: u8 = 0x4;

/// One entry of a multipath route.
#[derive(Debug, PartialEq, Eq)]
pub struct RouteNextHop {
    pub flags: u8,
    pub hops: u8,
    pub interface_index: u32,
    pub attributes: Vec<RouteAttribute>,
}

impl RouteNextHop {
    /// All fields zero and no attributes.
    pub open spec fn spec_is_default(self) -> bool {
        &&& self.flags == 0
        &&& self.hops == 0
        &&& self.interface_index == 0
        &&& self.attributes@ == Seq::<RouteAttribute>::empty()
    }

    pub fn new() -> (r: RouteNextHop)
        ensures
            r.spec_is_default(),
    {
        RouteNextHop { flags: 0, hops: 0, interface_index: 0, attributes: Vec::new() }
    }
}

/// One route attribute (`RTA_*`).
#[derive(Debug, PartialEq, Eq)]
pub enum RouteAttribute {
    Destination(RouteAddress),
    Source(RouteAddress),
    Gateway(RouteAddress),
    PrefSource(RouteAddress),
    Via(RouteVia),
    Table(u32),
    Priority(u32),
    Iif(u32),
    Oif(u32),
    MultiPath(Vec<RouteNextHop>),
    NewDestination(Vec<MplsLabel>),
    EncapType(RouteLwEnCapType),
    Encap(Vec<RouteLwTunnelEncap>),
    Other(DefaultNla),
}

/// A whole route message.
#[derive(Debug, PartialEq, Eq)]
pub struct RouteMessage {
    pub header: RouteHeader,
    pub attributes: Vec<RouteAttribute>,
}

impl RouteMessage {
    pub fn new() -> (r: RouteMessage)
        ensures
            r.header == RouteHeader::spec_default(),
            r.attributes@ == Seq::<RouteAttribute>::empty(),
    {
        RouteMessage { header: RouteHeader::new(), attributes: Vec::new() }
    }
}

} // verus!
