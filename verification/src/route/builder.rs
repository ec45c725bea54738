//! Building route messages. The builder is polymorphic in the address
//! family: the IPv4 and IPv6 builders fix it at construction, the
//! generic builder derives it from the first family-determining call and
//! rejects later calls of a contradicting family.

use vstd::prelude::*;
use core::marker::PhantomData;
use crate::errors::Error;
use crate::ip::{AddressFamily, IpAddr, Ipv4Addr, Ipv6Addr, MplsLabel};
use crate::packet_route::route::{
    RouteAddress, RouteAttribute, RouteHeader, RouteLwEnCapType, RouteLwTunnelEncap,
    RouteMessage, RouteMplsIpTunnel, RouteNextHop, RouteProtocol, RouteScope, RouteType,
    RouteVia, ROUTE_FLAG_ONLINK, ROUTE_NEXT_HOP_FLAG_ONLINK, RT_TABLE_MAIN,
};

verus! {

/// A route message rejected before it reaches the wire.
#[derive(Debug, PartialEq, Eq)]
pub enum InvalidRouteMessage {
    /// The builder's address family does not admit the call.
    AddressFamily(AddressFamily),
    /// The gateway's family contradicts the route's.
    Gateway(IpAddr),
    /// The preferred source's family contradicts the route's.
    PrefSource(IpAddr),
    /// The source prefix is of the wrong family or too long.
    SourcePrefix(IpAddr, u8),
    /// The destination prefix is of the wrong family or too long.
    DestinationPrefix(IpAddr, u8),
}

impl InvalidRouteMessage {
    /// Surface this validation failure in the library's shared error
    /// taxonomy, as a locally-detected invalid request.
    pub fn into_error(self) -> (r: Error)
        ensures
            r is InvalidRequest,
    {
        match self {
            InvalidRouteMessage::AddressFamily(_) => Error::InvalidRequest(
                String::from_str("invalid address family"),
            ),
            InvalidRouteMessage::Gateway(_) => Error::InvalidRequest(
                String::from_str("invalid gateway"),
            ),
            InvalidRouteMessage::PrefSource(_) => Error::InvalidRequest(
                String::from_str("invalid preferred source"),
            ),
            InvalidRouteMessage::SourcePrefix(_, _) => Error::InvalidRequest(
                String::from_str("invalid source prefix"),
            ),
            InvalidRouteMessage::DestinationPrefix(_, _) => Error::InvalidRequest(
                String::from_str("invalid destination prefix"),
            ),
        }
    }
}

/// The header every fresh route builder starts from: main table, static
/// protocol, universe scope, unicast kind.
pub open spec fn spec_route_default_header() -> RouteHeader {
    RouteHeader {
        table: RT_TABLE_MAIN,
        protocol: RouteProtocol::Static,
        scope: RouteScope::Universe,
        kind: RouteType::Unicast,
        ..RouteHeader::spec_default()
    }
}

/// The family the generic builder works in once it has seen this
/// address: an unset family is fixed by the address, a set family wins.
pub open spec fn spec_family_for(current: AddressFamily, address: IpAddr) -> AddressFamily {
    if current == AddressFamily::Unspec {
        if address is V4 {
            AddressFamily::Inet
        } else {
            AddressFamily::Inet6
        }
    } else {
        current
    }
}

/// The wire form of an IP address in a route attribute.
pub open spec fn spec_route_address(address: IpAddr) -> RouteAddress {
    match address {
        IpAddr::V4(v4) => RouteAddress::Inet(v4),
        IpAddr::V6(v6) => RouteAddress::Inet6(v6),
    }
}

/// Whether the family admits the address: IPv4 under `Inet`, IPv6 under
/// `Inet6`.
pub open spec fn spec_family_admits(family: AddressFamily, address: IpAddr) -> bool {
    ||| (family == AddressFamily::Inet && address is V4)
    ||| (family == AddressFamily::Inet6 && address is V6)
}

/// Whether the family admits the prefix: at most 32 bits under `Inet`,
/// at most 128 under `Inet6`.
pub open spec fn spec_family_admits_prefix(
    family: AddressFamily,
    address: IpAddr,
    prefix_length: u8,
) -> bool {
    &&& spec_family_admits(family, address)
    &&& (family == AddressFamily::Inet ==> prefix_length <= 32)
    &&& (family == AddressFamily::Inet6 ==> prefix_length <= 128)
}

/// Build the wire form of an IP address.
pub fn route_address(address: IpAddr) -> (r: RouteAddress)
    ensures
        r == spec_route_address(address),
{
    match address {
        IpAddr::V4(v4) => RouteAddress::Inet(v4),
        IpAddr::V6(v6) => RouteAddress::Inet6(v6),
    }
}

/// Helper struct for building [`RouteMessage`]. The type parameter
/// selects the address family variant.
#[derive(Debug)]
pub struct RouteMessageBuilder<T> {
    pub message: RouteMessage,
    pub _phantom: PhantomData<T>,
}

impl<T> RouteMessageBuilder<T> {
    /// Everything but the message attributes is as in `other`.
    pub open spec fn spec_same_but_attributes(self, other: Self) -> bool {
        self.message.header == other.message.header
    }

    /// Create a default route message with the table, protocol, scope
    /// and kind defaults set. When querying routes these header values
    /// are ignored unless strict checking is enabled on the socket.
    fn new_no_address_family() -> (r: Self)
        ensures
            r.message.header == spec_route_default_header(),
            r.message.attributes@ == Seq::<RouteAttribute>::empty(),
    {
        let mut message = RouteMessage::new();
        message.header.table = RT_TABLE_MAIN;
        message.header.protocol = RouteProtocol::Static;
        message.header.scope = RouteScope::Universe;
        message.header.kind = RouteType::Unicast;
        RouteMessageBuilder { message, _phantom: PhantomData }
    }

    /// Sets the input interface index.
    pub fn input_interface(self, index: u32) -> (r: Self)
        ensures
            r.message.header == self.message.header,
            r.message.attributes@ == self.message.attributes@.push(RouteAttribute::Iif(index)),
    {
        let mut ret = self;
        ret.message.attributes.push(RouteAttribute::Iif(index));
        ret
    }

    /// Sets the output interface index.
    pub fn output_interface(self, index: u32) -> (r: Self)
        ensures
            r.message.header == self.message.header,
            r.message.attributes@ == self.message.attributes@.push(RouteAttribute::Oif(index)),
    {
        let mut ret = self;
        ret.message.attributes.push(RouteAttribute::Oif(index));
        ret
    }

    /// Sets the output MPLS encapsulation labels. On an MPLS route they
    /// are the new destination; on an IP route they ride in a
    /// lightweight-tunnel encapsulation attribute pair. An empty list
    /// adds nothing.
    pub fn output_mpls(self, labels: Vec<MplsLabel>) -> (r: Self)
        ensures
            r.message.header == self.message.header,
            labels@.len() == 0 ==> r.message.attributes@ == self.message.attributes@,
            labels@.len() > 0 && self.message.header.address_family == AddressFamily::Mpls
                ==> r.message.attributes@ == self.message.attributes@.push(
                RouteAttribute::NewDestination(labels),
            ),
            labels@.len() > 0 && self.message.header.address_family != AddressFamily::Mpls ==> {
                &&& r.message.attributes@.len() == self.message.attributes@.len() + 2
                &&& r.message.attributes@.take(self.message.attributes@.len() as int)
                    == self.message.attributes@
                &&& r.message.attributes@[self.message.attributes@.len() as int]
                    == RouteAttribute::EncapType(RouteLwEnCapType::Mpls)
                &&& (r.message.attributes@.last() matches RouteAttribute::Encap(encap) && encap@
                    .len() == 1 && encap@[0] == RouteLwTunnelEncap::Mpls(
                    RouteMplsIpTunnel::Destination(labels),
                ))
            },
    {
        if labels.len() == 0 {
            return self;
        }
        let mut ret = self;
        let is_mpls = matches!(ret.message.header.address_family, AddressFamily::Mpls);
        if is_mpls {
            ret.message.attributes.push(RouteAttribute::NewDestination(labels));
        } else {
            ret.message.attributes.push(RouteAttribute::EncapType(RouteLwEnCapType::Mpls));
            let mut encap: Vec<RouteLwTunnelEncap> = Vec::new();
            encap.push(RouteLwTunnelEncap::Mpls(RouteMplsIpTunnel::Destination(labels)));
            ret.message.attributes.push(RouteAttribute::Encap(encap));
            proof {
                assert(ret.message.attributes@.take(self.message.attributes@.len() as int)
                    =~= self.message.attributes@);
            }
        }
        ret
    }

    /// Sets multiple next-hop entries for the route.
    pub fn multipath(self, nexthops: Vec<RouteNextHop>) -> (r: Self)
        ensures
            r.message.header == self.message.header,
            r.message.attributes@ == self.message.attributes@.push(
                RouteAttribute::MultiPath(nexthops),
            ),
    {
        let mut ret = self;
        ret.message.attributes.push(RouteAttribute::MultiPath(nexthops));
        ret
    }

    /// Sets the route priority (metric).
    pub fn priority(self, priority: u32) -> (r: Self)
        ensures
            r.message.header == self.message.header,
            r.message.attributes@ == self.message.attributes@.push(
                RouteAttribute::Priority(priority),
            ),
    {
        let mut ret = self;
        ret.message.attributes.push(RouteAttribute::Priority(priority));
        ret
    }

    /// Sets the route table id. The header field is a single byte, so a
    /// table id above 255 travels as a separate wide attribute and
    /// leaves the header field alone.
    pub fn table_id(self, table: u32) -> (r: Self)
        ensures
            table > 255 ==> {
                &&& r.message.header == self.message.header
                &&& r.message.attributes@ == self.message.attributes@.push(
                    RouteAttribute::Table(table),
                )
            },
            table <= 255 ==> {
                &&& r.message.header == (RouteHeader {
                    table: table as u8,
                    ..self.message.header
                })
                &&& r.message.attributes@ == self.message.attributes@
            },
    {
        let mut ret = self;
        if table > 255 {
            ret.message.attributes.push(RouteAttribute::Table(table));
        } else {
            ret.message.header.table = table as u8;
        }
        ret
    }

    /// Sets the route protocol; the default is static.
    pub fn protocol(self, protocol: RouteProtocol) -> (r: Self)
        ensures
            r.message.header == (RouteHeader { protocol, ..self.message.header }),
            r.message.attributes@ == self.message.attributes@,
    {
        let mut ret = self;
        ret.message.header.protocol = protocol;
        ret
    }

    /// Sets the route scope; the default is universe.
    pub fn scope(self, scope: RouteScope) -> (r: Self)
        ensures
            r.message.header == (RouteHeader { scope, ..self.message.header }),
            r.message.attributes@ == self.message.attributes@,
    {
        let mut ret = self;
        ret.message.header.scope = scope;
        ret
    }

    /// Sets the route kind; the default is unicast.
    pub fn kind(self, kind: RouteType) -> (r: Self)
        ensures
            r.message.header == (RouteHeader { kind, ..self.message.header }),
            r.message.attributes@ == self.message.attributes@,
    {
        let mut ret = self;
        ret.message.header.kind = kind;
        ret
    }

    /// Marks the next hop as directly reachable (on-link): reachable
    /// without passing through a connected subnet.
    pub fn onlink(self) -> (r: Self)
        ensures
            r.message.header == (RouteHeader {
                flags: self.message.header.flags | ROUTE_FLAG_ONLINK,
                ..self.message.header
            }),
            r.message.attributes@ == self.message.attributes@,
    {
        let mut ret = self;
        ret.message.header.flags = ret.message.header.flags | ROUTE_FLAG_ONLINK;
        ret
    }

    /// Builds the [`RouteMessage`].
    pub fn build(self) -> (r: RouteMessage)
        ensures
            r == self.message,
    {
        self.message
    }
}

impl RouteMessageBuilder<Ipv4Addr> {
    /// A fresh IPv4 route builder: the defaults plus the `Inet` family.
    pub fn new() -> (r: Self)
        ensures
            r.message.header == (RouteHeader {
                address_family: AddressFamily::Inet,
                ..spec_route_default_header()
            }),
            r.message.attributes@ == Seq::<RouteAttribute>::empty(),
    {
        let mut builder = Self::new_no_address_family();
        builder.message.header.address_family = AddressFamily::Inet;
        builder
    }

    /// Sets the source address prefix.
    pub fn source_prefix(self, addr: Ipv4Addr, prefix_length: u8) -> (r: Self)
        ensures
            r.message.header == (RouteHeader {
                source_prefix_length: prefix_length,
                ..self.message.header
            }),
            r.message.attributes@ == self.message.attributes@.push(
                RouteAttribute::Source(RouteAddress::Inet(addr)),
            ),
    {
        let mut ret = self;
        ret.message.header.source_prefix_length = prefix_length;
        ret.message.attributes.push(RouteAttribute::Source(RouteAddress::Inet(addr)));
        ret
    }

    /// Sets the preferred source address.
    pub fn pref_source(self, addr: Ipv4Addr) -> (r: Self)
        ensures
            r.message.header == self.message.header,
            r.message.attributes@ == self.message.attributes@.push(
                RouteAttribute::PrefSource(RouteAddress::Inet(addr)),
            ),
    {
        let mut ret = self;
        ret.message.attributes.push(RouteAttribute::PrefSource(RouteAddress::Inet(addr)));
        ret
    }

    /// Sets the destination address prefix.
    pub fn destination_prefix(self, addr: Ipv4Addr, prefix_length: u8) -> (r: Self)
        ensures
            r.message.header == (RouteHeader {
                destination_prefix_length: prefix_length,
                ..self.message.header
            }),
            r.message.attributes@ == self.message.attributes@.push(
                RouteAttribute::Destination(RouteAddress::Inet(addr)),
            ),
    {
        let mut ret = self;
        ret.message.header.destination_prefix_length = prefix_length;
        ret.message.attributes.push(RouteAttribute::Destination(RouteAddress::Inet(addr)));
        ret
    }

    /// Sets the gateway (via) address.
    pub fn gateway(self, addr: Ipv4Addr) -> (r: Self)
        ensures
            r.message.header == self.message.header,
            r.message.attributes@ == self.message.attributes@.push(
                RouteAttribute::Gateway(RouteAddress::Inet(addr)),
            ),
    {
        let mut ret = self;
        ret.message.attributes.push(RouteAttribute::Gateway(RouteAddress::Inet(addr)));
        ret
    }
}

impl Default for RouteMessageBuilder<Ipv4Addr> {
    fn default() -> (r: Self)
        ensures
            r.message.header == (RouteHeader {
                address_family: AddressFamily::Inet,
                ..spec_route_default_header()
            }),
            r.message.attributes@ == Seq::<RouteAttribute>::empty(),
    {
        Self::new()
    }
}

impl RouteMessageBuilder<Ipv6Addr> {
    /// A fresh IPv6 route builder: the defaults plus the `Inet6` family.
    pub fn new() -> (r: Self)
        ensures
            r.message.header == (RouteHeader {
                address_family: AddressFamily::Inet6,
                ..spec_route_default_header()
            }),
            r.message.attributes@ == Seq::<RouteAttribute>::empty(),
    {
        let mut builder = Self::new_no_address_family();
        builder.message.header.address_family = AddressFamily::Inet6;
        builder
    }

    /// Sets the source address prefix.
    pub fn source_prefix(self, addr: Ipv6Addr, prefix_length: u8) -> (r: Self)
        ensures
            r.message.header == (RouteHeader {
                source_prefix_length: prefix_length,
                ..self.message.header
            }),
            r.message.attributes@ == self.message.attributes@.push(
                RouteAttribute::Source(RouteAddress::Inet6(addr)),
            ),
    {
        let mut ret = self;
        ret.message.header.source_prefix_length = prefix_length;
        ret.message.attributes.push(RouteAttribute::Source(RouteAddress::Inet6(addr)));
        ret
    }

    /// Sets the preferred source address.
    pub fn pref_source(self, addr: Ipv6Addr) -> (r: Self)
        ensures
            r.message.header == self.message.header,
            r.message.attributes@ == self.message.attributes@.push(
                RouteAttribute::PrefSource(RouteAddress::Inet6(addr)),
            ),
    {
        let mut ret = self;
        ret.message.attributes.push(RouteAttribute::PrefSource(RouteAddress::Inet6(addr)));
        ret
    }

    /// Sets the destination address prefix.
    pub fn destination_prefix(self, addr: Ipv6Addr, prefix_length: u8) -> (r: Self)
        ensures
            r.message.header == (RouteHeader {
                destination_prefix_length: prefix_length,
                ..self.message.header
            }),
            r.message.attributes@ == self.message.attributes@.push(
                RouteAttribute::Destination(RouteAddress::Inet6(addr)),
            ),
    {
        let mut ret = self;
        ret.message.header.destination_prefix_length = prefix_length;
        ret.message.attributes.push(RouteAttribute::Destination(RouteAddress::Inet6(addr)));
        ret
    }

    /// Sets the gateway (via) address.
    pub fn gateway(self, addr: Ipv6Addr) -> (r: Self)
        ensures
            r.message.header == self.message.header,
            r.message.attributes@ == self.message.attributes@.push(
                RouteAttribute::Gateway(RouteAddress::Inet6(addr)),
            ),
    {
        let mut ret = self;
        ret.message.attributes.push(RouteAttribute::Gateway(RouteAddress::Inet6(addr)));
        ret
    }
}

impl Default for RouteMessageBuilder<Ipv6Addr> {
    fn default() -> (r: Self)
        ensures
            r.message.header == (RouteHeader {
                address_family: AddressFamily::Inet6,
                ..spec_route_default_header()
            }),
            r.message.attributes@ == Seq::<RouteAttribute>::empty(),
    {
        Self::new()
    }
}

impl RouteMessageBuilder<IpAddr> {
    /// A fresh generic route builder: the family is fixed by the first
    /// family-determining call.
    pub fn new() -> (r: Self)
        ensures
            r.message.header == spec_route_default_header(),
            r.message.attributes@ == Seq::<RouteAttribute>::empty(),
    {
        Self::new_no_address_family()
    }

    /// If the address family is not set already, fix it from the given
    /// IP address; a family already set stays.
    fn set_address_family_from_ip_addr(&mut self, addr: IpAddr)
        ensures
            final(self).message.header == (RouteHeader {
                address_family: spec_family_for(
                    old(self).message.header.address_family,
                    addr,
                ),
                ..old(self).message.header
            }),
            final(self).message.attributes@ == old(self).message.attributes@,
    {
        let is_unspec = matches!(self.message.header.address_family, AddressFamily::Unspec);
        if is_unspec {
            if addr.is_ipv4() {
                self.message.header.address_family = AddressFamily::Inet;
            } else {
                self.message.header.address_family = AddressFamily::Inet6;
            }
        }
    }

    /// Sets the source address prefix, fixing the family on first use.
    /// Returns the validation error — never a built message — when the
    /// prefix contradicts the route's family.
    pub fn source_prefix(self, addr: IpAddr, prefix_length: u8) -> (r: Result<
        Self,
        InvalidRouteMessage,
    >)
        ensures
            ({
                let family = spec_family_for(self.message.header.address_family, addr);
                match r {
                    Ok(b) => {
                        &&& spec_family_admits_prefix(family, addr, prefix_length)
                        &&& b.message.header == (RouteHeader {
                            address_family: family,
                            source_prefix_length: prefix_length,
                            ..self.message.header
                        })
                        &&& b.message.attributes@ == self.message.attributes@.push(
                            RouteAttribute::Source(spec_route_address(addr)),
                        )
                    },
                    Err(InvalidRouteMessage::AddressFamily(af)) => {
                        &&& af == family
                        &&& family != AddressFamily::Inet
                        &&& family != AddressFamily::Inet6
                    },
                    Err(InvalidRouteMessage::SourcePrefix(a, p)) => {
                        &&& a == addr
                        &&& p == prefix_length
                        &&& (family == AddressFamily::Inet || family == AddressFamily::Inet6)
                        &&& !spec_family_admits_prefix(family, addr, prefix_length)
                    },
                    _ => false,
                }
            }),
    {
        let mut ret = self;
        ret.set_address_family_from_ip_addr(addr);
        match ret.message.header.address_family {
            AddressFamily::Inet => {
                if addr.is_ipv6() || prefix_length > 32 {
                    return Err(InvalidRouteMessage::SourcePrefix(addr, prefix_length));
                }
            },
            AddressFamily::Inet6 => {
                if addr.is_ipv4() || prefix_length > 128 {
                    return Err(InvalidRouteMessage::SourcePrefix(addr, prefix_length));
                }
            },
            af => {
                return Err(InvalidRouteMessage::AddressFamily(af));
            },
        }
        ret.message.attributes.push(RouteAttribute::Source(route_address(addr)));
        ret.message.header.source_prefix_length = prefix_length;
        Ok(ret)
    }

    /// Sets the preferred source address, fixing the family on first
    /// use. Returns the validation error when the address contradicts
    /// the route's family.
    pub fn pref_source(self, addr: IpAddr) -> (r: Result<Self, InvalidRouteMessage>)
        ensures
            ({
                let family = spec_family_for(self.message.header.address_family, addr);
                match r {
                    Ok(b) => {
                        &&& spec_family_admits(family, addr)
                        &&& b.message.header == (RouteHeader {
                            address_family: family,
                            ..self.message.header
                        })
                        &&& b.message.attributes@ == self.message.attributes@.push(
                            RouteAttribute::PrefSource(spec_route_address(addr)),
                        )
                    },
                    Err(InvalidRouteMessage::AddressFamily(af)) => {
                        &&& af == family
                        &&& family != AddressFamily::Inet
                        &&& family != AddressFamily::Inet6
                    },
                    Err(InvalidRouteMessage::PrefSource(a)) => {
                        &&& a == addr
                        &&& (family == AddressFamily::Inet || family == AddressFamily::Inet6)
                        &&& !spec_family_admits(family, addr)
                    },
                    _ => false,
                }
            }),
    {
        let mut ret = self;
        ret.set_address_family_from_ip_addr(addr);
        match ret.message.header.address_family {
            AddressFamily::Inet => {
                if addr.is_ipv6() {
                    return Err(InvalidRouteMessage::PrefSource(addr));
                }
            },
            AddressFamily::Inet6 => {
                if addr.is_ipv4() {
                    return Err(InvalidRouteMessage::PrefSource(addr));
                }
            },
            af => {
                return Err(InvalidRouteMessage::AddressFamily(af));
            },
        }
        ret.message.attributes.push(RouteAttribute::PrefSource(route_address(addr)));
        Ok(ret)
    }

    /// Sets the destination address prefix, fixing the family on first
    /// use. A destination of the other family than an earlier
    /// family-determining call — a gateway, say — is a validation error,
    /// not a built message.
    pub fn destination_prefix(self, addr: IpAddr, prefix_length: u8) -> (r: Result<
        Self,
        InvalidRouteMessage,
    >)
        ensures
            ({
                let family = spec_family_for(self.message.header.address_family, addr);
                match r {
                    Ok(b) => {
                        &&& spec_family_admits_prefix(family, addr, prefix_length)
                        &&& b.message.header == (RouteHeader {
                            address_family: family,
                            destination_prefix_length: prefix_length,
                            ..self.message.header
                        })
                        &&& b.message.attributes@ == self.message.attributes@.push(
                            RouteAttribute::Destination(spec_route_address(addr)),
                        )
                    },
                    Err(InvalidRouteMessage::AddressFamily(af)) => {
                        &&& af == family
                        &&& family != AddressFamily::Inet
                        &&& family != AddressFamily::Inet6
                    },
                    Err(InvalidRouteMessage::DestinationPrefix(a, p)) => {
                        &&& a == addr
                        &&& p == prefix_length
                        &&& (family == AddressFamily::Inet || family == AddressFamily::Inet6)
                        &&& !spec_family_admits_prefix(family, addr, prefix_length)
                    },
                    _ => false,
                }
            }),
    {
        let mut ret = self;
        ret.set_address_family_from_ip_addr(addr);
        match ret.message.header.address_family {
            AddressFamily::Inet => {
                if addr.is_ipv6() || prefix_length > 32 {
                    return Err(InvalidRouteMessage::DestinationPrefix(addr, prefix_length));
                }
            },
            AddressFamily::Inet6 => {
                if addr.is_ipv4() || prefix_length > 128 {
                    return Err(InvalidRouteMessage::DestinationPrefix(addr, prefix_length));
                }
            },
            af => {
                return Err(InvalidRouteMessage::AddressFamily(af));
            },
        }
        ret.message.header.destination_prefix_length = prefix_length;
        ret.message.attributes.push(RouteAttribute::Destination(route_address(addr)));
        Ok(ret)
    }

    /// Sets the gateway (via) address, fixing the family on first use.
    /// Returns the validation error when the gateway contradicts the
    /// route's family.
    pub fn gateway(self, addr: IpAddr) -> (r: Result<Self, InvalidRouteMessage>)
        ensures
            ({
                let family = spec_family_for(self.message.header.address_family, addr);
                match r {
                    Ok(b) => {
                        &&& spec_family_admits(family, addr)
                        &&& b.message.header == (RouteHeader {
                            address_family: family,
                            ..self.message.header
                        })
                        &&& b.message.attributes@ == self.message.attributes@.push(
                            RouteAttribute::Gateway(spec_route_address(addr)),
                        )
                    },
                    Err(InvalidRouteMessage::AddressFamily(af)) => {
                        &&& af == family
                        &&& family != AddressFamily::Inet
                        &&& family != AddressFamily::Inet6
                    },
                    Err(InvalidRouteMessage::Gateway(a)) => {
                        &&& a == addr
                        &&& (family == AddressFamily::Inet || family == AddressFamily::Inet6)
                        &&& !spec_family_admits(family, addr)
                    },
                    _ => false,
                }
            }),
    {
        let mut ret = self;
        ret.set_address_family_from_ip_addr(addr);
        match ret.message.header.address_family {
            AddressFamily::Inet => {
                if addr.is_ipv6() {
                    return Err(InvalidRouteMessage::Gateway(addr));
                }
            },
            AddressFamily::Inet6 => {
                if addr.is_ipv4() {
                    return Err(InvalidRouteMessage::Gateway(addr));
                }
            },
            af => {
                return Err(InvalidRouteMessage::AddressFamily(af));
            },
        }
        ret.message.attributes.push(RouteAttribute::Gateway(route_address(addr)));
        Ok(ret)
    }
}

impl Default for RouteMessageBuilder<IpAddr> {
    fn default() -> (r: Self)
        ensures
            r.message.header == spec_route_default_header(),
            r.message.attributes@ == Seq::<RouteAttribute>::empty(),
    {
        Self::new()
    }
}

impl RouteMessageBuilder<MplsLabel> {
    /// A fresh MPLS route builder: the defaults plus the `Mpls` family.
    pub fn new() -> (r: Self)
        ensures
            r.message.header == (RouteHeader {
                address_family: AddressFamily::Mpls,
                ..spec_route_default_header()
            }),
            r.message.attributes@ == Seq::<RouteAttribute>::empty(),
    {
        let mut builder = Self::new_no_address_family();
        builder.message.header.address_family = AddressFamily::Mpls;
        builder
    }

    /// Sets the destination MPLS label; the destination prefix length of
    /// a label is its 20 bits.
    pub fn label(self, label: MplsLabel) -> (r: Self)
        ensures
            r.message.header == (RouteHeader {
                address_family: AddressFamily::Mpls,
                destination_prefix_length: 20,
                ..self.message.header
            }),
            r.message.attributes@ == self.message.attributes@.push(
                RouteAttribute::Destination(RouteAddress::Mpls(label)),
            ),
    {
        let mut ret = self;
        ret.message.header.address_family = AddressFamily::Mpls;
        ret.message.header.destination_prefix_length = 20;
        ret.message.attributes.push(RouteAttribute::Destination(RouteAddress::Mpls(label)));
        ret
    }

    /// Sets the gateway (via) address of the label route.
    pub fn via(self, addr: IpAddr) -> (r: Self)
        ensures
            r.message.header == self.message.header,
            r.message.attributes@ == self.message.attributes@.push(
                RouteAttribute::Via(
                    match addr {
                        IpAddr::V4(v4) => RouteVia::Inet(v4),
                        IpAddr::V6(v6) => RouteVia::Inet6(v6),
                    },
                ),
            ),
    {
        let mut ret = self;
        let via = match addr {
            IpAddr::V4(v4) => RouteVia::Inet(v4),
            IpAddr::V6(v6) => RouteVia::Inet6(v6),
        };
        ret.message.attributes.push(RouteAttribute::Via(via));
        ret
    }
}

impl Default for RouteMessageBuilder<MplsLabel> {
    fn default() -> (r: Self)
        ensures
            r.message.header == (RouteHeader {
                address_family: AddressFamily::Mpls,
                ..spec_route_default_header()
            }),
            r.message.attributes@ == Seq::<RouteAttribute>::empty(),
    {
        Self::new()
    }
}

/// Helper struct for building one [`RouteNextHop`] of a multipath
/// route.
#[derive(Debug)]
pub struct RouteNextHopBuilder {
    pub address_family: AddressFamily,
    pub nexthop: RouteNextHop,
}

impl RouteNextHopBuilder {
    /// Create a default next hop for a route of the given family.
    pub fn new(address_family: AddressFamily) -> (r: Self)
        ensures
            r.address_family == address_family,
            r.nexthop.spec_is_default(),
    {
        RouteNextHopBuilder { address_family, nexthop: RouteNextHop::new() }
    }

    /// Sets the next hop's interface index.
    pub fn interface(self, index: u32) -> (r: Self)
        ensures
            r.address_family == self.address_family,
            r.nexthop == (RouteNextHop { interface_index: index, ..self.nexthop }),
    {
        let mut ret = self;
        ret.nexthop.interface_index = index;
        ret
    }

    /// Sets the next hop (via) address. An address of the route's own
    /// family is a `Gateway` attribute; an IPv6 next hop of an IPv4
    /// route, or any next hop of an MPLS route, must use the `Via`
    /// attribute instead.
    pub fn via(self, addr: IpAddr) -> (r: Result<Self, InvalidRouteMessage>)
        ensures
            match r {
                Ok(b) => {
                    &&& b.address_family == self.address_family
                    &&& b.nexthop.flags == self.nexthop.flags
                    &&& b.nexthop.hops == self.nexthop.hops
                    &&& b.nexthop.interface_index == self.nexthop.interface_index
                    &&& b.nexthop.attributes@ == self.nexthop.attributes@.push(
                        if spec_family_admits(self.address_family, addr) {
                            RouteAttribute::Gateway(spec_route_address(addr))
                        } else if self.address_family == AddressFamily::Inet && addr is V6 {
                            RouteAttribute::Via(RouteVia::Inet6(addr->V6_0))
                        } else {
                            RouteAttribute::Via(
                                match addr {
                                    IpAddr::V4(v4) => RouteVia::Inet(v4),
                                    IpAddr::V6(v6) => RouteVia::Inet6(v6),
                                },
                            )
                        },
                    )
                    &&& (spec_family_admits(self.address_family, addr) || (self.address_family
                        == AddressFamily::Inet && addr is V6) || self.address_family
                        == AddressFamily::Mpls)
                },
                Err(InvalidRouteMessage::AddressFamily(af)) => {
                    &&& af == self.address_family
                    &&& !spec_family_admits(self.address_family, addr)
                    &&& !(self.address_family == AddressFamily::Inet && addr is V6)
                    &&& self.address_family != AddressFamily::Mpls
                },
                _ => false,
            },
    {
        let mut ret = self;
        let attr = match (ret.address_family, addr) {
            (AddressFamily::Inet, IpAddr::V4(v4)) => RouteAttribute::Gateway(
                RouteAddress::Inet(v4),
            ),
            (AddressFamily::Inet6, IpAddr::V6(v6)) => RouteAttribute::Gateway(
                RouteAddress::Inet6(v6),
            ),
            (AddressFamily::Inet, IpAddr::V6(v6)) => RouteAttribute::Via(RouteVia::Inet6(v6)),
            (AddressFamily::Mpls, IpAddr::V4(v4)) => RouteAttribute::Via(RouteVia::Inet(v4)),
            (AddressFamily::Mpls, IpAddr::V6(v6)) => RouteAttribute::Via(RouteVia::Inet6(v6)),
            (af, _) => {
                return Err(InvalidRouteMessage::AddressFamily(af));
            },
        };
        ret.nexthop.attributes.push(attr);
        Ok(ret)
    }

    /// Marks the next hop as directly reachable (on-link).
    pub fn onlink(self) -> (r: Self)
        ensures
            r.address_family == self.address_family,
            r.nexthop == (RouteNextHop {
                flags: self.nexthop.flags | ROUTE_NEXT_HOP_FLAG_ONLINK,
                ..self.nexthop
            }),
    {
        let mut ret = self;
        ret.nexthop.flags = ret.nexthop.flags | ROUTE_NEXT_HOP_FLAG_ONLINK;
        ret
    }

    /// Sets the next hop's MPLS encapsulation labels, as
    /// [`RouteMessageBuilder::output_mpls`] does for a whole route. An
    /// empty list adds nothing.
    pub fn mpls(self, labels: Vec<MplsLabel>) -> (r: Self)
        ensures
            r.address_family == self.address_family,
            r.nexthop.flags == self.nexthop.flags,
            r.nexthop.hops == self.nexthop.hops,
            r.nexthop.interface_index == self.nexthop.interface_index,
            labels@.len() == 0 ==> r.nexthop.attributes@ == self.nexthop.attributes@,
            labels@.len() > 0 && self.address_family == AddressFamily::Mpls
                ==> r.nexthop.attributes@ == self.nexthop.attributes@.push(
                RouteAttribute::NewDestination(labels),
            ),
            labels@.len() > 0 && self.address_family != AddressFamily::Mpls ==> {
                &&& r.nexthop.attributes@.len() == self.nexthop.attributes@.len() + 2
                &&& r.nexthop.attributes@.take(self.nexthop.attributes@.len() as int)
                    == self.nexthop.attributes@
                &&& r.nexthop.attributes@[self.nexthop.attributes@.len() as int]
                    == RouteAttribute::EncapType(RouteLwEnCapType::Mpls)
                &&& (r.nexthop.attributes@.last() matches RouteAttribute::Encap(encap) && encap@
                    .len() == 1 && encap@[0] == RouteLwTunnelEncap::Mpls(
                    RouteMplsIpTunnel::Destination(labels),
                ))
            },
    {
        if labels.len() == 0 {
            return self;
        }
        let mut ret = self;
        let is_mpls = matches!(ret.address_family, AddressFamily::Mpls);
        if is_mpls {
            ret.nexthop.attributes.push(RouteAttribute::NewDestination(labels));
        } else {
            ret.nexthop.attributes.push(RouteAttribute::EncapType(RouteLwEnCapType::Mpls));
            let mut encap: Vec<RouteLwTunnelEncap> = Vec::new();
            encap.push(RouteLwTunnelEncap::Mpls(RouteMplsIpTunnel::Destination(labels)));
            ret.nexthop.attributes.push(RouteAttribute::Encap(encap));
            proof {
                assert(ret.nexthop.attributes@.take(self.nexthop.attributes@.len() as int)
                    =~= self.nexthop.attributes@);
            }
        }
        ret
    }

    /// Builds the [`RouteNextHop`].
    pub fn build(self) -> (r: RouteNextHop)
        ensures
            r == self.nexthop,
    {
        self.nexthop
    }
}

} // verus!
