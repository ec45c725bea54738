//! VXLAN (virtual extensible LAN) interfaces.

use vstd::prelude::*;
use crate::ip::{spec_v4_octets, spec_v6_octets, v4_octets, v6_octets, Ipv4Addr, Ipv6Addr};
use crate::link::builder::{spec_is_name_attribute, LinkMessageBuilder};
use crate::packet_route::link::{InfoData, InfoKind, InfoVxlan, LinkHeader};

verus! {

/// Represents a VXLAN interface.
#[derive(Debug)]
pub struct LinkVxlan;

impl LinkVxlan {
    /// Equal to `LinkMessageBuilder::<LinkVxlan>::new(name).id(vni)`.
    pub fn new(name: &str, vni: u32) -> (r: LinkMessageBuilder<LinkVxlan>)
        ensures
            r.header == LinkHeader::spec_default(),
            r.info_kind == Some(InfoKind::Vxlan),
            r.port_kind is None,
            r.port_data is None,
            r.extra_attributes@.len() == 1,
            spec_is_name_attribute(r.extra_attributes@[0], name@),
            r.info_data matches Some(InfoData::Vxlan(v)) && v@ == seq![InfoVxlan::Id(vni)],
    {
        LinkMessageBuilder::<LinkVxlan>::new(name).id(vni)
    }
}

impl LinkMessageBuilder<LinkVxlan> {
    /// Create a [`LinkMessageBuilder`] for a VXLAN.
    pub fn new(name: &str) -> (r: Self)
        ensures
            r.header == LinkHeader::spec_default(),
            r.info_kind == Some(InfoKind::Vxlan),
            r.info_data is None,
            r.port_kind is None,
            r.port_data is None,
            r.extra_attributes@.len() == 1,
            spec_is_name_attribute(r.extra_attributes@[0], name@),
    {
        let text = String::from_str(name);
        LinkMessageBuilder::<LinkVxlan>::new_with_info_kind(InfoKind::Vxlan).name(text)
    }
    /// The result of appending one attribute to the builder's VXLAN
    /// data list: a missing list is created, a list of another kind is
    /// left alone.
    pub open spec fn spec_appends(self, r: Self, info: InfoVxlan) -> bool {
        &&& r.spec_same_but_info_data(self)
        &&& (self.info_data is None ==> (r.info_data matches Some(InfoData::Vxlan(v)) && v@
            == seq![info]))
        &&& (self.info_data matches Some(InfoData::Vxlan(v0)) ==> (r.info_data matches Some(
            InfoData::Vxlan(v),
        ) && v@ == v0@.push(info)))
        &&& (!(self.info_data is None || self.info_data matches Some(InfoData::Vxlan(_)))
            ==> r.info_data == self.info_data)
    }

    /// Append one attribute to the VXLAN data list.
    pub fn append_info_data(self, info: InfoVxlan) -> (r: Self)
        ensures
            self.spec_appends(r, info),
    {
        let mut ret = self;
        ret.info_data = match ret.info_data {
            None => {
                let mut infos: Vec<InfoVxlan> = Vec::new();
                infos.push(info);
                proof {
                    assert(infos@ =~= seq![info]);
                }
                Some(InfoData::Vxlan(infos))
            },
            Some(InfoData::Vxlan(mut infos)) => {
                infos.push(info);
                Some(InfoData::Vxlan(infos))
            },
            other => other,
        };
        ret
    }

    /// Set the VNI (VXLAN network identifier).
    pub fn id(self, id: u32) -> (r: Self)
        ensures
            self.spec_appends(r, InfoVxlan::Id(id)),
    {
        self.append_info_data(InfoVxlan::Id(id))
    }

    /// Adds the `dev` attribute: the physical device used for tunnel endpoint communication, by interface index. The generic `LinkMessageBuilder::link()` does not work for VXLAN.
    pub fn dev(self, index: u32) -> (r: Self)
        ensures
            self.spec_appends(r, InfoVxlan::Link(index)),
    {
        self.append_info_data(InfoVxlan::Link(index))
    }

    /// Adds the `dstport` attribute: the UDP destination port of the remote VXLAN tunnel endpoint.
    pub fn port(self, port: u16) -> (r: Self)
        ensures
            self.spec_appends(r, InfoVxlan::Port(port)),
    {
        self.append_info_data(InfoVxlan::Port(port))
    }

    /// Adds the `tos` attribute: the TOS value of outgoing packets.
    pub fn tos(self, tos: u8) -> (r: Self)
        ensures
            self.spec_appends(r, InfoVxlan::Tos(tos)),
    {
        self.append_info_data(InfoVxlan::Tos(tos))
    }

    /// Adds the `ttl` attribute: the TTL value of outgoing packets.
    pub fn ttl(self, ttl: u8) -> (r: Self)
        ensures
            self.spec_appends(r, InfoVxlan::Ttl(ttl)),
    {
        self.append_info_data(InfoVxlan::Ttl(ttl))
    }

    /// Adds the `flowlabel` attribute: the flow label of outgoing packets.
    pub fn label(self, label: u32) -> (r: Self)
        ensures
            self.spec_appends(r, InfoVxlan::Label(label)),
    {
        self.append_info_data(InfoVxlan::Label(label))
    }

    /// Adds the `learning` attribute: whether unknown source link-layer and IP addresses enter the forwarding database.
    pub fn learning(self, learning: bool) -> (r: Self)
        ensures
            self.spec_appends(r, InfoVxlan::Learning(learning)),
    {
        self.append_info_data(InfoVxlan::Learning(learning))
    }

    /// Adds the `ageing` attribute: the lifetime in seconds of learnt FDB entries.
    pub fn ageing(self, seconds: u32) -> (r: Self)
        ensures
            self.spec_appends(r, InfoVxlan::Ageing(seconds)),
    {
        self.append_info_data(InfoVxlan::Ageing(seconds))
    }

    /// Adds the `maxaddress` attribute: the maximum number of FDB entries.
    pub fn limit(self, limit: u32) -> (r: Self)
        ensures
            self.spec_appends(r, InfoVxlan::Limit(limit)),
    {
        self.append_info_data(InfoVxlan::Limit(limit))
    }

    /// Adds the `srcport` attribute: the range of UDP source ports used towards the remote endpoint.
    pub fn port_range(self, min: u16, max: u16) -> (r: Self)
        ensures
            self.spec_appends(r, InfoVxlan::PortRange(min, max)),
    {
        self.append_info_data(InfoVxlan::PortRange(min, max))
    }

    /// Adds the `proxy` attribute: whether ARP proxying is on.
    pub fn proxy(self, proxy: bool) -> (r: Self)
        ensures
            self.spec_appends(r, InfoVxlan::Proxy(proxy)),
    {
        self.append_info_data(InfoVxlan::Proxy(proxy))
    }

    /// Adds the `rsc` attribute: whether route short-circuiting is on.
    pub fn rsc(self, rsc: bool) -> (r: Self)
        ensures
            self.spec_appends(r, InfoVxlan::Rsc(rsc)),
    {
        self.append_info_data(InfoVxlan::Rsc(rsc))
    }

    /// Adds the `l2miss` attribute: whether link-layer miss notifications are generated.
    pub fn l2miss(self, l2miss: bool) -> (r: Self)
        ensures
            self.spec_appends(r, InfoVxlan::L2Miss(l2miss)),
    {
        self.append_info_data(InfoVxlan::L2Miss(l2miss))
    }

    /// Adds the `l3miss` attribute: whether IP address miss notifications are generated.
    pub fn l3miss(self, l3miss: bool) -> (r: Self)
        ensures
            self.spec_appends(r, InfoVxlan::L3Miss(l3miss)),
    {
        self.append_info_data(InfoVxlan::L3Miss(l3miss))
    }

    /// Adds the `collect_metadata` attribute.
    pub fn collect_metadata(self, collect_metadata: bool) -> (r: Self)
        ensures
            self.spec_appends(r, InfoVxlan::CollectMetadata(collect_metadata)),
    {
        self.append_info_data(InfoVxlan::CollectMetadata(collect_metadata))
    }

    /// Adds the `udp_csum` attribute: whether a UDP checksum is computed for transmitted packets over IPv4.
    pub fn udp_csum(self, udp_csum: bool) -> (r: Self)
        ensures
            self.spec_appends(r, InfoVxlan::UDPCsum(udp_csum)),
    {
        self.append_info_data(InfoVxlan::UDPCsum(udp_csum))
    }

    /// Adds the `group` attribute: the multicast IP address joined, as
    /// an IPv4 address. Only one of `remote` and `group` may be present.
    pub fn group(self, addr: Ipv4Addr) -> (r: Self)
        ensures
            exists|v: Vec<u8>|
                #[trigger] self.spec_appends(r, InfoVxlan::Group(v)) && v@ == spec_v4_octets(addr),
    {
        let bytes = v4_octets(addr);
        let ghost b = bytes;
        let r = self.append_info_data(InfoVxlan::Group(bytes));
        proof {
            assert(self.spec_appends(r, InfoVxlan::Group(b)));
        }
        r
    }

    /// Adds the `group` attribute: the multicast IP address joined, as
    /// an IPv6 address. Only one of `remote` and `group` may be present.
    pub fn group6(self, addr: Ipv6Addr) -> (r: Self)
        ensures
            exists|v: Vec<u8>|
                #[trigger] self.spec_appends(r, InfoVxlan::Group6(v)) && v@ == spec_v6_octets(
                    addr,
                ),
    {
        let bytes = v6_octets(addr);
        let ghost b = bytes;
        let r = self.append_info_data(InfoVxlan::Group6(bytes));
        proof {
            assert(self.spec_appends(r, InfoVxlan::Group6(b)));
        }
        r
    }

    /// Adds the `remote` attribute: the unicast destination IP address
    /// used in outgoing packets when the destination link-layer address
    /// is not in the forwarding database, as an IPv4 address. It shares
    /// the wire attribute with `group`.
    pub fn remote(self, addr: Ipv4Addr) -> (r: Self)
        ensures
            exists|v: Vec<u8>|
                #[trigger] self.spec_appends(r, InfoVxlan::Group(v)) && v@ == spec_v4_octets(addr),
    {
        self.group(addr)
    }

    /// Adds the `remote` attribute as an IPv6 address; it shares the
    /// wire attribute with `group6`.
    pub fn remote6(self, addr: Ipv6Addr) -> (r: Self)
        ensures
            exists|v: Vec<u8>|
                #[trigger] self.spec_appends(r, InfoVxlan::Group6(v)) && v@ == spec_v6_octets(
                    addr,
                ),
    {
        self.group6(addr)
    }

    /// Adds the `local` attribute: the source IP address of outgoing
    /// packets, as an IPv4 address.
    pub fn local(self, addr: Ipv4Addr) -> (r: Self)
        ensures
            exists|v: Vec<u8>|
                #[trigger] self.spec_appends(r, InfoVxlan::Local(v)) && v@ == spec_v4_octets(addr),
    {
        let bytes = v4_octets(addr);
        let ghost b = bytes;
        let r = self.append_info_data(InfoVxlan::Local(bytes));
        proof {
            assert(self.spec_appends(r, InfoVxlan::Local(b)));
        }
        r
    }

    /// Adds the `local` attribute: the source IP address of outgoing
    /// packets, as an IPv6 address.
    pub fn local6(self, addr: Ipv6Addr) -> (r: Self)
        ensures
            exists|v: Vec<u8>|
                #[trigger] self.spec_appends(r, InfoVxlan::Local6(v)) && v@ == spec_v6_octets(
                    addr,
                ),
    {
        let bytes = v6_octets(addr);
        let ghost b = bytes;
        let r = self.append_info_data(InfoVxlan::Local6(bytes));
        proof {
            assert(self.spec_appends(r, InfoVxlan::Local6(b)));
        }
        r
    }
}

} // verus!
