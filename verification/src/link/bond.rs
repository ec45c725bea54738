//! Bond (link aggregation) interfaces.

use vstd::prelude::*;
use crate::ip::{Ipv4Addr, Ipv6Addr};
use crate::link::builder::LinkMessageBuilder;
use crate::link::builder::spec_is_name_attribute;
use crate::packet_route::link::{
    BondArpValidate, BondMode, InfoBond, InfoData, InfoKind, LinkAttribute, LinkHeader,
};

verus! {

/// Represents a bond interface; start with [`LinkBond::new`] and finish
/// with [`LinkMessageBuilder::build`].
#[derive(Debug)]
pub struct LinkBond;

impl LinkBond {
    /// Equal to `LinkMessageBuilder::<LinkBond>::new()`.
    pub fn new(name: &str) -> (r: LinkMessageBuilder<LinkBond>)
        ensures
            r.header == LinkHeader::spec_default(),
            r.info_kind == Some(InfoKind::Bond),
            r.info_data is None,
            r.port_kind is None,
            r.port_data is None,
            r.extra_attributes@.len() == 1,
            spec_is_name_attribute(r.extra_attributes@[0], name@),
    {
        LinkMessageBuilder::<LinkBond>::new(name)
    }
}

impl LinkMessageBuilder<LinkBond> {
    /// Create a [`LinkMessageBuilder`] for a bond.
    pub fn new(name: &str) -> (r: Self)
        ensures
            r.header == LinkHeader::spec_default(),
            r.info_kind == Some(InfoKind::Bond),
            r.info_data is None,
            r.port_kind is None,
            r.port_data is None,
            r.extra_attributes@.len() == 1,
            spec_is_name_attribute(r.extra_attributes@[0], name@),
    {
        let text = String::from_str(name);
        LinkMessageBuilder::<LinkBond>::new_with_info_kind(InfoKind::Bond).name(text)
    }

    /// The result of appending one bond attribute to the builder's bond
    /// data list: a missing list is created, a list of another kind is
    /// left alone.
    pub open spec fn spec_appends(self, r: Self, info: InfoBond) -> bool {
        &&& r.spec_same_but_info_data(self)
        &&& (self.info_data is None ==> (r.info_data matches Some(InfoData::Bond(v)) && v@
            == seq![info]))
        &&& (self.info_data matches Some(InfoData::Bond(v0)) ==> (r.info_data matches Some(
            InfoData::Bond(v),
        ) && v@ == v0@.push(info)))
        &&& (!(self.info_data is None || self.info_data matches Some(InfoData::Bond(_)))
            ==> r.info_data == self.info_data)
    }

    /// Append one bond attribute to the bond data list.
    pub fn append_info_data(self, info: InfoBond) -> (r: Self)
        ensures
            self.spec_appends(r, info),
    {
        let mut ret = self;
        ret.info_data = match ret.info_data {
            None => {
                let mut infos: Vec<InfoBond> = Vec::new();
                infos.push(info);
                proof {
                    assert(infos@ =~= seq![info]);
                }
                Some(InfoData::Bond(infos))
            },
            Some(InfoData::Bond(mut infos)) => {
                infos.push(info);
                Some(InfoData::Bond(infos))
            },
            other => other,
        };
        ret
    }

    /// Adds the `mode` attribute to the bond. This is equivalent to
    /// `ip link add name NAME type bond mode MODE`.
    pub fn mode(self, mode: BondMode) -> (r: Self)
        ensures
            self.spec_appends(r, InfoBond::Mode(mode)),
    {
        self.append_info_data(InfoBond::Mode(mode))
    }

    /// Adds the `active_port` attribute to the bond, where `active_port`
    /// is the ifindex of an interface attached to the bond.
    pub fn active_port(self, active_port: u32) -> (r: Self)
        ensures
            self.spec_appends(r, InfoBond::ActivePort(active_port)),
    {
        self.append_info_data(InfoBond::ActivePort(active_port))
    }

    /// Adds the `miimon` attribute to the bond.
    pub fn miimon(self, miimon: u32) -> (r: Self)
        ensures
            self.spec_appends(r, InfoBond::MiiMon(miimon)),
    {
        self.append_info_data(InfoBond::MiiMon(miimon))
    }

    /// Adds the `updelay` attribute to the bond.
    pub fn updelay(self, updelay: u32) -> (r: Self)
        ensures
            self.spec_appends(r, InfoBond::UpDelay(updelay)),
    {
        self.append_info_data(InfoBond::UpDelay(updelay))
    }

    /// Adds the `downdelay` attribute to the bond.
    pub fn downdelay(self, downdelay: u32) -> (r: Self)
        ensures
            self.spec_appends(r, InfoBond::DownDelay(downdelay)),
    {
        self.append_info_data(InfoBond::DownDelay(downdelay))
    }

    /// Adds the `use_carrier` attribute to the bond.
    pub fn use_carrier(self, use_carrier: u8) -> (r: Self)
        ensures
            self.spec_appends(r, InfoBond::UseCarrier(use_carrier)),
    {
        self.append_info_data(InfoBond::UseCarrier(use_carrier))
    }

    /// Adds the `arp_interval` attribute to the bond.
    pub fn arp_interval(self, arp_interval: u32) -> (r: Self)
        ensures
            self.spec_appends(r, InfoBond::ArpInterval(arp_interval)),
    {
        self.append_info_data(InfoBond::ArpInterval(arp_interval))
    }

    /// Adds the `arp_validate` attribute to the bond.
    pub fn arp_validate(self, arp_validate: BondArpValidate) -> (r: Self)
        ensures
            self.spec_appends(r, InfoBond::ArpValidate(arp_validate)),
    {
        self.append_info_data(InfoBond::ArpValidate(arp_validate))
    }

    /// Adds the `arp_all_targets` attribute to the bond.
    pub fn arp_all_targets(self, arp_all_targets: u32) -> (r: Self)
        ensures
            self.spec_appends(r, InfoBond::ArpAllTargets(arp_all_targets)),
    {
        self.append_info_data(InfoBond::ArpAllTargets(arp_all_targets))
    }

    /// Adds the `primary` attribute to the bond, where `primary` is the
    /// ifindex of an interface.
    pub fn primary(self, primary: u32) -> (r: Self)
        ensures
            self.spec_appends(r, InfoBond::Primary(primary)),
    {
        self.append_info_data(InfoBond::Primary(primary))
    }

    /// Adds the `primary_reselect` attribute to the bond.
    pub fn primary_reselect(self, primary_reselect: u8) -> (r: Self)
        ensures
            self.spec_appends(r, InfoBond::PrimaryReselect(primary_reselect)),
    {
        self.append_info_data(InfoBond::PrimaryReselect(primary_reselect))
    }

    /// Adds the `fail_over_mac` attribute to the bond.
    pub fn fail_over_mac(self, fail_over_mac: u8) -> (r: Self)
        ensures
            self.spec_appends(r, InfoBond::FailOverMac(fail_over_mac)),
    {
        self.append_info_data(InfoBond::FailOverMac(fail_over_mac))
    }

    /// Adds the `xmit_hash_policy` attribute to the bond.
    pub fn xmit_hash_policy(self, xmit_hash_policy: u8) -> (r: Self)
        ensures
            self.spec_appends(r, InfoBond::XmitHashPolicy(xmit_hash_policy)),
    {
        self.append_info_data(InfoBond::XmitHashPolicy(xmit_hash_policy))
    }

    /// Adds the `resend_igmp` attribute to the bond.
    pub fn resend_igmp(self, resend_igmp: u32) -> (r: Self)
        ensures
            self.spec_appends(r, InfoBond::ResendIgmp(resend_igmp)),
    {
        self.append_info_data(InfoBond::ResendIgmp(resend_igmp))
    }

    /// Adds the `num_peer_notif` attribute to the bond.
    pub fn num_peer_notif(self, num_peer_notif: u8) -> (r: Self)
        ensures
            self.spec_appends(r, InfoBond::NumPeerNotif(num_peer_notif)),
    {
        self.append_info_data(InfoBond::NumPeerNotif(num_peer_notif))
    }

    /// Adds the `all_ports_active` attribute to the bond.
    pub fn all_ports_active(self, all_ports_active: u8) -> (r: Self)
        ensures
            self.spec_appends(r, InfoBond::AllPortsActive(all_ports_active)),
    {
        self.append_info_data(InfoBond::AllPortsActive(all_ports_active))
    }

    /// Adds the `min_links` attribute to the bond.
    pub fn min_links(self, min_links: u32) -> (r: Self)
        ensures
            self.spec_appends(r, InfoBond::MinLinks(min_links)),
    {
        self.append_info_data(InfoBond::MinLinks(min_links))
    }

    /// Adds the `lp_interval` attribute to the bond.
    pub fn lp_interval(self, lp_interval: u32) -> (r: Self)
        ensures
            self.spec_appends(r, InfoBond::LpInterval(lp_interval)),
    {
        self.append_info_data(InfoBond::LpInterval(lp_interval))
    }

    /// Adds the `packets_per_port` attribute to the bond.
    pub fn packets_per_port(self, packets_per_port: u32) -> (r: Self)
        ensures
            self.spec_appends(r, InfoBond::PacketsPerPort(packets_per_port)),
    {
        self.append_info_data(InfoBond::PacketsPerPort(packets_per_port))
    }

    /// Adds the `ad_lacp_rate` attribute to the bond.
    pub fn ad_lacp_rate(self, ad_lacp_rate: u8) -> (r: Self)
        ensures
            self.spec_appends(r, InfoBond::AdLacpRate(ad_lacp_rate)),
    {
        self.append_info_data(InfoBond::AdLacpRate(ad_lacp_rate))
    }

    /// Adds the `ad_select` attribute to the bond.
    pub fn ad_select(self, ad_select: u8) -> (r: Self)
        ensures
            self.spec_appends(r, InfoBond::AdSelect(ad_select)),
    {
        self.append_info_data(InfoBond::AdSelect(ad_select))
    }

    /// Adds the `ad_actor_sys_prio` attribute to the bond.
    pub fn ad_actor_sys_prio(self, ad_actor_sys_prio: u16) -> (r: Self)
        ensures
            self.spec_appends(r, InfoBond::AdActorSysPrio(ad_actor_sys_prio)),
    {
        self.append_info_data(InfoBond::AdActorSysPrio(ad_actor_sys_prio))
    }

    /// Adds the `ad_user_port_key` attribute to the bond.
    pub fn ad_user_port_key(self, ad_user_port_key: u16) -> (r: Self)
        ensures
            self.spec_appends(r, InfoBond::AdUserPortKey(ad_user_port_key)),
    {
        self.append_info_data(InfoBond::AdUserPortKey(ad_user_port_key))
    }

    /// Adds the `ad_actor_system` attribute to the bond.
    pub fn ad_actor_system(self, ad_actor_system: [u8; 6]) -> (r: Self)
        ensures
            self.spec_appends(r, InfoBond::AdActorSystem(ad_actor_system)),
    {
        self.append_info_data(InfoBond::AdActorSystem(ad_actor_system))
    }

    /// Adds the `tlb_dynamic_lb` attribute to the bond.
    pub fn tlb_dynamic_lb(self, tlb_dynamic_lb: u8) -> (r: Self)
        ensures
            self.spec_appends(r, InfoBond::TlbDynamicLb(tlb_dynamic_lb)),
    {
        self.append_info_data(InfoBond::TlbDynamicLb(tlb_dynamic_lb))
    }

    /// Adds the `peer_notif_delay` attribute to the bond.
    pub fn peer_notif_delay(self, peer_notif_delay: u32) -> (r: Self)
        ensures
            self.spec_appends(r, InfoBond::PeerNotifDelay(peer_notif_delay)),
    {
        self.append_info_data(InfoBond::PeerNotifDelay(peer_notif_delay))
    }

    /// Adds the `ad_lacp_active` attribute to the bond.
    pub fn ad_lacp_active(self, ad_lacp_active: u8) -> (r: Self)
        ensures
            self.spec_appends(r, InfoBond::AdLacpActive(ad_lacp_active)),
    {
        self.append_info_data(InfoBond::AdLacpActive(ad_lacp_active))
    }

    /// Adds the `missed_max` attribute to the bond.
    pub fn missed_max(self, missed_max: u8) -> (r: Self)
        ensures
            self.spec_appends(r, InfoBond::MissedMax(missed_max)),
    {
        self.append_info_data(InfoBond::MissedMax(missed_max))
    }

    /// Adds the `arp_ip_target` attribute to the bond.
    pub fn arp_ip_target(self, arp_ip_target: Vec<Ipv4Addr>) -> (r: Self)
        ensures
            self.spec_appends(r, InfoBond::ArpIpTarget(arp_ip_target)),
    {
        self.append_info_data(InfoBond::ArpIpTarget(arp_ip_target))
    }

    /// Adds the `ns_ip6_target` attribute to the bond.
    pub fn ns_ip6_target(self, ns_ip6_target: Vec<Ipv6Addr>) -> (r: Self)
        ensures
            self.spec_appends(r, InfoBond::NsIp6Target(ns_ip6_target)),
    {
        self.append_info_data(InfoBond::NsIp6Target(ns_ip6_target))
    }
}

} // verus!
