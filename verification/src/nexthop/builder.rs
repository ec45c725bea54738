//! Building nexthop object messages.

use vstd::prelude::*;
use core::marker::PhantomData;
use crate::ip::{AddressFamily, IpAddr, Ipv4Addr, Ipv6Addr};
use crate::packet_route::nexthop::{
    NexthopAttribute, NexthopFlags, NexthopGroupEntry, NexthopHeader, NexthopMessage,
};
use crate::packet_route::route::{RouteProtocol, RouteScope};

verus! {

/// The raw header byte of a route protocol; only the values this
/// builder writes are mapped.
pub open spec fn spec_protocol_byte(protocol: RouteProtocol) -> u8 {
    match protocol {
        RouteProtocol::Unspec => 0,
        RouteProtocol::IcmpRedirect => 1,
        RouteProtocol::Kernel => 2,
        RouteProtocol::Boot => 3,
        RouteProtocol::Static => 4,
        RouteProtocol::Other(value) => value,
    }
}

/// The raw header byte of a route scope.
pub open spec fn spec_scope_byte(scope: RouteScope) -> u8 {
    match scope {
        RouteScope::Universe => 0,
        RouteScope::Site => 200,
        RouteScope::Link => 253,
        RouteScope::Host => 254,
        RouteScope::NoWhere => 255,
        RouteScope::Other(value) => value,
    }
}

/// The raw header byte of a route protocol.
pub fn protocol_byte(protocol: RouteProtocol) -> (r: u8)
    ensures
        r == spec_protocol_byte(protocol),
{
    match protocol {
        RouteProtocol::Unspec => 0,
        RouteProtocol::IcmpRedirect => 1,
        RouteProtocol::Kernel => 2,
        RouteProtocol::Boot => 3,
        RouteProtocol::Static => 4,
        RouteProtocol::Other(value) => value,
    }
}

/// The raw header byte of a route scope.
pub fn scope_byte(scope: RouteScope) -> (r: u8)
    ensures
        r == spec_scope_byte(scope),
{
    match scope {
        RouteScope::Universe => 0,
        RouteScope::Site => 200,
        RouteScope::Link => 253,
        RouteScope::Host => 254,
        RouteScope::NoWhere => 255,
        RouteScope::Other(value) => value,
    }
}

/// The sixteen or four bytes of an IP address in network order.
pub open spec fn spec_gateway_octets(address: IpAddr) -> Seq<u8> {
    match address {
        IpAddr::V4(v4) => crate::ip::spec_v4_octets(v4),
        IpAddr::V6(v6) => crate::ip::spec_v6_octets(v6),
    }
}

/// A builder for [`NexthopMessage`]. The type parameter selects the
/// address family variant.
#[derive(Debug)]
pub struct NexthopMessageBuilder<T = IpAddr> {
    pub message: NexthopMessage,
    pub _phantom: PhantomData<T>,
}

impl<T> NexthopMessageBuilder<T> {
    /// A fresh builder without an address family: static protocol,
    /// universe scope.
    fn new_no_address_family() -> (r: Self)
        ensures
            r.message.header == (NexthopHeader {
                protocol: spec_protocol_byte(RouteProtocol::Static),
                scope: spec_scope_byte(RouteScope::Universe),
                ..NexthopHeader::spec_default()
            }),
            r.message.nlas@ == Seq::<NexthopAttribute>::empty(),
    {
        let mut message = NexthopMessage::new();
        message.header.protocol = protocol_byte(RouteProtocol::Static);
        message.header.scope = scope_byte(RouteScope::Universe);
        NexthopMessageBuilder { message, _phantom: PhantomData }
    }

    /// Set the nexthop id.
    pub fn id(self, id: u32) -> (r: Self)
        ensures
            r.message.header == self.message.header,
            r.message.nlas@ == self.message.nlas@.push(NexthopAttribute::Id(id)),
    {
        let mut ret = self;
        ret.message.nlas.push(NexthopAttribute::Id(id));
        ret
    }

    /// Set the output interface index.
    pub fn oif(self, index: u32) -> (r: Self)
        ensures
            r.message.header == self.message.header,
            r.message.nlas@ == self.message.nlas@.push(NexthopAttribute::Oif(index)),
    {
        let mut ret = self;
        ret.message.nlas.push(NexthopAttribute::Oif(index));
        ret
    }

    /// Mark the nexthop as a blackhole.
    pub fn blackhole(self) -> (r: Self)
        ensures
            r.message.header == self.message.header,
            r.message.nlas@ == self.message.nlas@.push(NexthopAttribute::Blackhole),
    {
        let mut ret = self;
        ret.message.nlas.push(NexthopAttribute::Blackhole);
        ret
    }

    /// Set the nexthop group: pairs of nexthop id and weight.
    pub fn group(self, entries: Vec<(u32, u8)>) -> (r: Self)
        ensures
            r.message.header == self.message.header,
            r.message.nlas@.len() == self.message.nlas@.len() + 1,
            r.message.nlas@.take(self.message.nlas@.len() as int) == self.message.nlas@,
            r.message.nlas@.last() matches NexthopAttribute::Group(group) && group@
                == entries@.map_values(
                |e: (u32, u8)|
                    NexthopGroupEntry { id: e.0, weight: e.1, resvd1: 0u8, resvd2: 0u8 },
            ),
    {
        let n: usize = entries.len();
        let mut group_entries: Vec<NexthopGroupEntry> = Vec::new();
        let mut i: usize = 0;
        while i < n
            invariant
                n == entries@.len(),
                i <= n,
                group_entries@.len() == i,
                forall|j: int|
                    0 <= j < i ==> group_entries@[j] == (NexthopGroupEntry {
                        id: entries@[j].0,
                        weight: entries@[j].1,
                        resvd1: 0u8,
                        resvd2: 0u8,
                    }),
            decreases n - i,
        {
            let (id, weight) = entries[i];
            group_entries.push(NexthopGroupEntry { id, weight, resvd1: 0, resvd2: 0 });
            i += 1;
        }
        proof {
            assert(group_entries@ =~= entries@.map_values(
                |e: (u32, u8)|
                    NexthopGroupEntry { id: e.0, weight: e.1, resvd1: 0u8, resvd2: 0u8 },
            ));
        }
        let mut ret = self;
        ret.message.nlas.push(NexthopAttribute::Group(group_entries));
        proof {
            assert(ret.message.nlas@.take(self.message.nlas@.len() as int)
                =~= self.message.nlas@);
        }
        ret
    }

    /// Set the nexthop flags.
    pub fn flags(self, flags: NexthopFlags) -> (r: Self)
        ensures
            r.message.header == (NexthopHeader { flags, ..self.message.header }),
            r.message.nlas@ == self.message.nlas@,
    {
        let mut ret = self;
        ret.message.header.flags = flags;
        ret
    }

    /// Set the nexthop protocol.
    pub fn protocol(self, protocol: RouteProtocol) -> (r: Self)
        ensures
            r.message.header == (NexthopHeader {
                protocol: spec_protocol_byte(protocol),
                ..self.message.header
            }),
            r.message.nlas@ == self.message.nlas@,
    {
        let mut ret = self;
        ret.message.header.protocol = protocol_byte(protocol);
        ret
    }

    /// Set the nexthop scope.
    pub fn scope(self, scope: RouteScope) -> (r: Self)
        ensures
            r.message.header == (NexthopHeader {
                scope: spec_scope_byte(scope),
                ..self.message.header
            }),
            r.message.nlas@ == self.message.nlas@,
    {
        let mut ret = self;
        ret.message.header.scope = scope_byte(scope);
        ret
    }

    /// Build the message.
    pub fn build(self) -> (r: NexthopMessage)
        ensures
            r == self.message,
    {
        self.message
    }
}

impl NexthopMessageBuilder<Ipv4Addr> {
    /// A fresh IPv4 nexthop builder.
    pub fn new() -> (r: Self)
        ensures
            r.message.header == (NexthopHeader {
                family: AddressFamily::Inet,
                protocol: spec_protocol_byte(RouteProtocol::Static),
                scope: spec_scope_byte(RouteScope::Universe),
                ..NexthopHeader::spec_default()
            }),
            r.message.nlas@ == Seq::<NexthopAttribute>::empty(),
    {
        let mut builder = Self::new_no_address_family();
        builder.message.header.family = AddressFamily::Inet;
        builder
    }

    /// Set the gateway IP address.
    pub fn gateway(self, addr: Ipv4Addr) -> (r: Self)
        ensures
            r.message.header == self.message.header,
            r.message.nlas@.len() == self.message.nlas@.len() + 1,
            r.message.nlas@.take(self.message.nlas@.len() as int) == self.message.nlas@,
            r.message.nlas@.last() matches NexthopAttribute::Gateway(bytes) && bytes@
                == crate::ip::spec_v4_octets(addr),
    {
        let mut ret = self;
        ret.message.nlas.push(NexthopAttribute::Gateway(crate::ip::v4_octets(addr)));
        proof {
            assert(ret.message.nlas@.take(self.message.nlas@.len() as int)
                =~= self.message.nlas@);
        }
        ret
    }
}

impl Default for NexthopMessageBuilder<Ipv4Addr> {
    fn default() -> (r: Self)
        ensures
            r.message.header == (NexthopHeader {
                family: AddressFamily::Inet,
                protocol: spec_protocol_byte(RouteProtocol::Static),
                scope: spec_scope_byte(RouteScope::Universe),
                ..NexthopHeader::spec_default()
            }),
            r.message.nlas@ == Seq::<NexthopAttribute>::empty(),
    {
        Self::new()
    }
}

impl NexthopMessageBuilder<Ipv6Addr> {
    /// A fresh IPv6 nexthop builder.
    pub fn new() -> (r: Self)
        ensures
            r.message.header == (NexthopHeader {
                family: AddressFamily::Inet6,
                protocol: spec_protocol_byte(RouteProtocol::Static),
                scope: spec_scope_byte(RouteScope::Universe),
                ..NexthopHeader::spec_default()
            }),
            r.message.nlas@ == Seq::<NexthopAttribute>::empty(),
    {
        let mut builder = Self::new_no_address_family();
        builder.message.header.family = AddressFamily::Inet6;
        builder
    }

    /// Set the gateway IP address.
    pub fn gateway(self, addr: Ipv6Addr) -> (r: Self)
        ensures
            r.message.header == self.message.header,
            r.message.nlas@.len() == self.message.nlas@.len() + 1,
            r.message.nlas@.take(self.message.nlas@.len() as int) == self.message.nlas@,
            r.message.nlas@.last() matches NexthopAttribute::Gateway(bytes) && bytes@
                == crate::ip::spec_v6_octets(addr),
    {
        let mut ret = self;
        ret.message.nlas.push(NexthopAttribute::Gateway(crate::ip::v6_octets(addr)));
        proof {
            assert(ret.message.nlas@.take(self.message.nlas@.len() as int)
                =~= self.message.nlas@);
        }
        ret
    }
}

impl Default for NexthopMessageBuilder<Ipv6Addr> {
    fn default() -> (r: Self)
        ensures
            r.message.header == (NexthopHeader {
                family: AddressFamily::Inet6,
                protocol: spec_protocol_byte(RouteProtocol::Static),
                scope: spec_scope_byte(RouteScope::Universe),
                ..NexthopHeader::spec_default()
            }),
            r.message.nlas@ == Seq::<NexthopAttribute>::empty(),
    {
        Self::new()
    }
}

impl NexthopMessageBuilder<IpAddr> {
    /// A fresh nexthop builder for either address family: the family is
    /// fixed by the first gateway.
    pub fn new() -> (r: Self)
        ensures
            r.message.header == (NexthopHeader {
                protocol: spec_protocol_byte(RouteProtocol::Static),
                scope: spec_scope_byte(RouteScope::Universe),
                ..NexthopHeader::spec_default()
            }),
            r.message.nlas@ == Seq::<NexthopAttribute>::empty(),
    {
        Self::new_no_address_family()
    }

    /// Set the gateway IP address; an unset family is fixed from it.
    pub fn gateway(self, addr: IpAddr) -> (r: Self)
        ensures
            r.message.header == (NexthopHeader {
                family: if self.message.header.family == AddressFamily::Unspec {
                    if addr is V4 {
                        AddressFamily::Inet
                    } else {
                        AddressFamily::Inet6
                    }
                } else {
                    self.message.header.family
                },
                ..self.message.header
            }),
            r.message.nlas@.len() == self.message.nlas@.len() + 1,
            r.message.nlas@.take(self.message.nlas@.len() as int) == self.message.nlas@,
            r.message.nlas@.last() matches NexthopAttribute::Gateway(bytes) && bytes@
                == spec_gateway_octets(addr),
    {
        let mut ret = self;
        let bytes: Vec<u8> = match addr {
            IpAddr::V4(v4) => crate::ip::v4_octets(v4),
            IpAddr::V6(v6) => crate::ip::v6_octets(v6),
        };
        let is_unspec = matches!(ret.message.header.family, AddressFamily::Unspec);
        if is_unspec {
            ret.message.header.family = match addr {
                IpAddr::V4(_) => AddressFamily::Inet,
                IpAddr::V6(_) => AddressFamily::Inet6,
            };
        }
        ret.message.nlas.push(NexthopAttribute::Gateway(bytes));
        proof {
            assert(ret.message.nlas@.take(self.message.nlas@.len() as int)
                =~= self.message.nlas@);
        }
        ret
    }
}

impl Default for NexthopMessageBuilder<IpAddr> {
    fn default() -> (r: Self)
        ensures
            r.message.header == (NexthopHeader {
                protocol: spec_protocol_byte(RouteProtocol::Static),
                scope: spec_scope_byte(RouteScope::Universe),
                ..NexthopHeader::spec_default()
            }),
            r.message.nlas@ == Seq::<NexthopAttribute>::empty(),
    {
        Self::new()
    }
}

} // verus!
