//! Bridge port (member interface) configuration.

use vstd::prelude::*;
use crate::link::builder::LinkMessageBuilder;
use crate::packet_route::link::{
    BridgeMulticastRouterType, BridgePortState, InfoBridgePort, InfoPortData, InfoPortKind,
    LinkHeader,
};

verus! {

/// Represents the configuration of one port of a bridge.
#[derive(Debug)]
pub struct LinkBridgePort;

impl LinkBridgePort {
    /// Equal to `LinkMessageBuilder::<LinkBridgePort>::default().index(..)`
    /// with the bridge port kind set.
    pub fn new(port_index: u32) -> (r: LinkMessageBuilder<LinkBridgePort>)
        ensures
            r.header == (LinkHeader { index: port_index, ..LinkHeader::spec_default() }),
            r.info_kind is None,
            r.info_data is None,
            r.port_kind == Some(InfoPortKind::Bridge),
            r.port_data is None,
            r.extra_attributes@.len() == 0,
    {
        LinkMessageBuilder::<LinkBridgePort>::default().index(port_index).set_port_kind(
            InfoPortKind::Bridge,
        )
    }
}

impl LinkMessageBuilder<LinkBridgePort> {
    /// The result of appending one attribute to the builder's bridge
    /// port data list: a missing list is created, a list of another kind
    /// is left alone.
    pub open spec fn spec_appends(self, r: Self, info: InfoBridgePort) -> bool {
        &&& r.spec_same_but_port_data(self)
        &&& (self.port_data is None ==> (r.port_data matches Some(InfoPortData::BridgePort(v)) && v@
            == seq![info]))
        &&& (self.port_data matches Some(InfoPortData::BridgePort(v0)) ==> (r.port_data matches Some(
            InfoPortData::BridgePort(v),
        ) && v@ == v0@.push(info)))
        &&& (!(self.port_data is None || self.port_data matches Some(InfoPortData::BridgePort(_)))
            ==> r.port_data == self.port_data)
    }

    /// Append one attribute to the bridge port data list.
    pub fn append_info_data(self, info: InfoBridgePort) -> (r: Self)
        ensures
            self.spec_appends(r, info),
    {
        let mut ret = self;
        ret.port_data = match ret.port_data {
            None => {
                let mut infos: Vec<InfoBridgePort> = Vec::new();
                infos.push(info);
                proof {
                    assert(infos@ =~= seq![info]);
                }
                Some(InfoPortData::BridgePort(infos))
            },
            Some(InfoPortData::BridgePort(mut infos)) => {
                infos.push(info);
                Some(InfoPortData::BridgePort(infos))
            },
            other => other,
        };
        ret
    }

    /// This is equivalent to `ip link set name NAME type bridge_slave fdb_flush`.
    pub fn fdb_flush(self) -> (r: Self)
        ensures
            self.spec_appends(r, InfoBridgePort::Flush),
    {
        self.append_info_data(InfoBridgePort::Flush)
    }

    /// This is equivalent to `ip link set name NAME type bridge_slave state STATE`.
    pub fn state(self, v: BridgePortState) -> (r: Self)
        ensures
            self.spec_appends(r, InfoBridgePort::State(v)),
    {
        self.append_info_data(InfoBridgePort::State(v))
    }

    /// This is equivalent to `ip link set name NAME type bridge_slave priority PRIO`.
    pub fn priority(self, v: u16) -> (r: Self)
        ensures
            self.spec_appends(r, InfoBridgePort::Priority(v)),
    {
        self.append_info_data(InfoBridgePort::Priority(v))
    }

    /// This is equivalent to `ip link set name NAME type bridge_slave cost COST`.
    pub fn cost(self, v: u32) -> (r: Self)
        ensures
            self.spec_appends(r, InfoBridgePort::Cost(v)),
    {
        self.append_info_data(InfoBridgePort::Cost(v))
    }

    /// This is equivalent to `ip link set name NAME type bridge_slave guard { on | off }`.
    pub fn guard(self, v: bool) -> (r: Self)
        ensures
            self.spec_appends(r, InfoBridgePort::Guard(v)),
    {
        self.append_info_data(InfoBridgePort::Guard(v))
    }

    /// This is equivalent to `ip link set name NAME type bridge_slave hairpin { on | off }`.
    pub fn hairpin(self, v: bool) -> (r: Self)
        ensures
            self.spec_appends(r, InfoBridgePort::HairpinMode(v)),
    {
        self.append_info_data(InfoBridgePort::HairpinMode(v))
    }

    /// This is equivalent to `ip link set name NAME type bridge_slave root_block { on | off }`.
    pub fn root_block(self, v: bool) -> (r: Self)
        ensures
            self.spec_appends(r, InfoBridgePort::Protect(v)),
    {
        self.append_info_data(InfoBridgePort::Protect(v))
    }

    /// This is equivalent to `ip link set name NAME type bridge_slave learning { on | off }`.
    pub fn learning(self, v: bool) -> (r: Self)
        ensures
            self.spec_appends(r, InfoBridgePort::Learning(v)),
    {
        self.append_info_data(InfoBridgePort::Learning(v))
    }

    /// This is equivalent to `ip link set name NAME type bridge_slave flood { on | off }`.
    pub fn flood(self, v: bool) -> (r: Self)
        ensures
            self.spec_appends(r, InfoBridgePort::UnicastFlood(v)),
    {
        self.append_info_data(InfoBridgePort::UnicastFlood(v))
    }

    /// This is equivalent to `ip link set name NAME type bridge_slave proxy_arp { on | off }`.
    pub fn proxy_arp(self, v: bool) -> (r: Self)
        ensures
            self.spec_appends(r, InfoBridgePort::ProxyARP(v)),
    {
        self.append_info_data(InfoBridgePort::ProxyARP(v))
    }

    /// This is equivalent to `ip link set name NAME type bridge_slave proxy_arp_wifi { on | off }`.
    pub fn proxy_arp_wifi(self, v: bool) -> (r: Self)
        ensures
            self.spec_appends(r, InfoBridgePort::ProxyARPWifi(v)),
    {
        self.append_info_data(InfoBridgePort::ProxyARPWifi(v))
    }

    /// This is equivalent to `ip link set name NAME type bridge_slave mcast_router MULTICAST_ROUTER`.
    pub fn mcast_router(self, v: BridgeMulticastRouterType) -> (r: Self)
        ensures
            self.spec_appends(r, InfoBridgePort::MulticastRouter(v)),
    {
        self.append_info_data(InfoBridgePort::MulticastRouter(v))
    }

    /// This is equivalent to `ip link set name NAME type bridge_slave mcast_fast_leave { on | off }`.
    pub fn mcast_fast_leave(self, v: bool) -> (r: Self)
        ensures
            self.spec_appends(r, InfoBridgePort::FastLeave(v)),
    {
        self.append_info_data(InfoBridgePort::FastLeave(v))
    }

    /// This is equivalent to `ip link set name NAME type bridge_slave bcast_flood { on | off }`.
    pub fn bcast_flood(self, v: bool) -> (r: Self)
        ensures
            self.spec_appends(r, InfoBridgePort::BroadcastFlood(v)),
    {
        self.append_info_data(InfoBridgePort::BroadcastFlood(v))
    }

    /// This is equivalent to `ip link set name NAME type bridge_slave mcast_flood { on | off }`.
    pub fn mcast_flood(self, v: bool) -> (r: Self)
        ensures
            self.spec_appends(r, InfoBridgePort::MulticastFlood(v)),
    {
        self.append_info_data(InfoBridgePort::MulticastFlood(v))
    }

    /// This is equivalent to `ip link set name NAME type bridge_slave mcast_to_unicast { on | off }`.
    pub fn mcast_to_unicast(self, v: bool) -> (r: Self)
        ensures
            self.spec_appends(r, InfoBridgePort::MulticastToUnicast(v)),
    {
        self.append_info_data(InfoBridgePort::MulticastToUnicast(v))
    }

    /// This is equivalent to `ip link set name NAME type bridge_slave group_fwd_mask MASK`.
    pub fn group_fwd_mask(self, v: u16) -> (r: Self)
        ensures
            self.spec_appends(r, InfoBridgePort::GroupFwdMask(v)),
    {
        self.append_info_data(InfoBridgePort::GroupFwdMask(v))
    }

    /// This is equivalent to `ip link set name NAME type bridge_slave neigh_suppress { on | off }`.
    pub fn neigh_suppress(self, v: bool) -> (r: Self)
        ensures
            self.spec_appends(r, InfoBridgePort::NeighSupress(v)),
    {
        self.append_info_data(InfoBridgePort::NeighSupress(v))
    }

    /// This is equivalent to `ip link set name NAME type bridge_slave neigh_vlan_suppress { on | off }`.
    pub fn neigh_vlan_suppress(self, v: bool) -> (r: Self)
        ensures
            self.spec_appends(r, InfoBridgePort::NeighVlanSuppress(v)),
    {
        self.append_info_data(InfoBridgePort::NeighVlanSuppress(v))
    }

    /// This is equivalent to `ip link set name NAME type bridge_slave vlan_tunnel { on | off }`.
    pub fn vlan_tunnel(self, v: bool) -> (r: Self)
        ensures
            self.spec_appends(r, InfoBridgePort::VlanTunnel(v)),
    {
        self.append_info_data(InfoBridgePort::VlanTunnel(v))
    }

    /// This is equivalent to `ip link set name NAME type bridge_slave isolated { on | off }`.
    pub fn isolated(self, v: bool) -> (r: Self)
        ensures
            self.spec_appends(r, InfoBridgePort::Isolated(v)),
    {
        self.append_info_data(InfoBridgePort::Isolated(v))
    }

    /// This is equivalent to `ip link set name NAME type bridge_slave locked { on | off }`.
    pub fn locked(self, v: bool) -> (r: Self)
        ensures
            self.spec_appends(r, InfoBridgePort::Locked(v)),
    {
        self.append_info_data(InfoBridgePort::Locked(v))
    }

    /// This is equivalent to `ip link set name NAME type bridge_slave mab { on | off }`.
    pub fn mab(self, v: bool) -> (r: Self)
        ensures
            self.spec_appends(r, InfoBridgePort::Mab(v)),
    {
        self.append_info_data(InfoBridgePort::Mab(v))
    }

    /// This is equivalent to `ip link set name NAME type bridge_slave backup_port DEVICE`, by interface index; index 0 equals `Self::nobackup_port()`.
    pub fn backup_port(self, iface_index: u32) -> (r: Self)
        ensures
            self.spec_appends(r, InfoBridgePort::BackupPort(iface_index)),
    {
        self.append_info_data(InfoBridgePort::BackupPort(iface_index))
    }

    /// This is equivalent to `ip link set name NAME type bridge_slave nobackup_port`.
    pub fn nobackup_port(self) -> (r: Self)
        ensures
            self.spec_appends(r, InfoBridgePort::BackupPort(0)),
    {
        self.append_info_data(InfoBridgePort::BackupPort(0))
    }

    /// This is equivalent to `ip link set name NAME type bridge_slave backup_nhid NHID`.
    pub fn backup_nhid(self, v: u32) -> (r: Self)
        ensures
            self.spec_appends(r, InfoBridgePort::BackupNextHopId(v)),
    {
        self.append_info_data(InfoBridgePort::BackupNextHopId(v))
    }
}

} // verus!
