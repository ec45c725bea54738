//! Linux bridge interfaces.

use vstd::prelude::*;
use crate::link::builder::{spec_is_name_attribute, LinkMessageBuilder};
use crate::packet_route::link::{
    BridgeBooleanOptions, BridgeMulticastRouterType, BridgeStpState, InfoBridge, InfoData,
    InfoKind, LinkHeader, VlanProtocol, BRIDGE_BOOL_OPT_FDB_LOCAL_VLAN_0,
    BRIDGE_BOOL_OPT_MDB_OFFLOAD_FAIL_NOTIF, BRIDGE_BOOL_OPT_MST_ENABLE,
    BRIDGE_BOOL_OPT_NO_LINK_LOCAL_LEARN, BRIDGE_BOOL_OPT_VLAN_MULTICAST_SNOOPING,
    LINK_FLAG_UP,
};

verus! {

/// One boolean bridge option applied to an options block: the chosen bit
/// is set or cleared in the value and always set in the change mask.
pub open spec fn spec_bool_opt_update(
    options: BridgeBooleanOptions,
    opt: u32,
    value: bool,
) -> BridgeBooleanOptions {
    BridgeBooleanOptions {
        value: if value {
            options.value | opt
        } else {
            options.value & !opt
        },
        mask: options.mask | opt,
    }
}

/// The bridge attribute list after one boolean option is applied: the
/// first `MultiBoolOpt` entry absorbs the change; without one, a fresh
/// entry carrying just this option is appended.
pub open spec fn spec_apply_bool_opt(
    infos: Seq<InfoBridge>,
    opt: u32,
    value: bool,
) -> Seq<InfoBridge>
    decreases infos.len(),
{
    if infos.len() == 0 {
        seq![
            InfoBridge::MultiBoolOpt(
                BridgeBooleanOptions { value: if value { opt } else { 0 }, mask: opt },
            ),
        ]
    } else if infos[0] is MultiBoolOpt {
        seq![InfoBridge::MultiBoolOpt(spec_bool_opt_update(infos[0]->MultiBoolOpt_0, opt, value))]
            + infos.drop_first()
    } else {
        seq![infos[0]] + spec_apply_bool_opt(infos.drop_first(), opt, value)
    }
}

/// Applying an option to a list whose first `MultiBoolOpt` entry stands
/// at `i` updates exactly that entry.
proof fn lemma_apply_bool_opt_at(infos: Seq<InfoBridge>, i: int, opt: u32, value: bool)
    requires
        0 <= i < infos.len(),
        infos[i] matches InfoBridge::MultiBoolOpt(_),
        forall|j: int| 0 <= j < i ==> !(#[trigger] infos[j] matches InfoBridge::MultiBoolOpt(_)),
    ensures
        infos[i] matches InfoBridge::MultiBoolOpt(options) && spec_apply_bool_opt(
            infos,
            opt,
            value,
        ) == infos.update(i, InfoBridge::MultiBoolOpt(spec_bool_opt_update(options, opt, value))),
    decreases i,
{
    if i == 0 {
        let options = infos[0]->MultiBoolOpt_0;
        assert(spec_apply_bool_opt(infos, opt, value) =~= infos.update(
            0,
            InfoBridge::MultiBoolOpt(spec_bool_opt_update(options, opt, value)),
        ));
    } else {
        lemma_apply_bool_opt_at(infos.drop_first(), i - 1, opt, value);
        let options = infos[i]->MultiBoolOpt_0;
        assert(infos.drop_first()[i - 1] == infos[i]);
        assert(spec_apply_bool_opt(infos, opt, value) =~= infos.update(
            i,
            InfoBridge::MultiBoolOpt(spec_bool_opt_update(options, opt, value)),
        ));
    }
}

/// Applying an option to a list without a `MultiBoolOpt` entry appends a
/// fresh one.
proof fn lemma_apply_bool_opt_absent(infos: Seq<InfoBridge>, opt: u32, value: bool)
    requires
        forall|j: int|
            0 <= j < infos.len() ==> !(#[trigger] infos[j] matches InfoBridge::MultiBoolOpt(_)),
    ensures
        spec_apply_bool_opt(infos, opt, value) == infos.push(
            InfoBridge::MultiBoolOpt(
                BridgeBooleanOptions { value: if value { opt } else { 0u32 }, mask: opt },
            ),
        ),
    decreases infos.len(),
{
    if infos.len() == 0 {
        assert(spec_apply_bool_opt(infos, opt, value) =~= infos.push(
            InfoBridge::MultiBoolOpt(
                BridgeBooleanOptions { value: if value { opt } else { 0u32 }, mask: opt },
            ),
        ));
    } else {
        lemma_apply_bool_opt_absent(infos.drop_first(), opt, value);
        assert(spec_apply_bool_opt(infos, opt, value) =~= infos.push(
            InfoBridge::MultiBoolOpt(
                BridgeBooleanOptions { value: if value { opt } else { 0u32 }, mask: opt },
            ),
        ));
    }
}

/// Represents a Linux bridge interface.
#[derive(Debug)]
pub struct LinkBridge;

impl LinkBridge {
    /// Equal to `LinkMessageBuilder::<LinkBridge>::new(name).up()`.
    pub fn new(name: &str) -> (r: LinkMessageBuilder<LinkBridge>)
        ensures
            r.header == (LinkHeader {
                flags: LINK_FLAG_UP,
                change_mask: LINK_FLAG_UP,
                ..LinkHeader::spec_default()
            }),
            r.info_kind == Some(InfoKind::Bridge),
            r.info_data is None,
            r.port_kind is None,
            r.port_data is None,
            r.extra_attributes@.len() == 1,
            spec_is_name_attribute(r.extra_attributes@[0], name@),
    {
        let r = LinkMessageBuilder::<LinkBridge>::new(name).up();
        proof {
            assert(0u32 | 0x1u32 == 0x1u32) by (bit_vector);
        }
        r
    }
}

impl LinkMessageBuilder<LinkBridge> {
    /// Create a [`LinkMessageBuilder`] for a Linux bridge.
    pub fn new(name: &str) -> (r: Self)
        ensures
            r.header == LinkHeader::spec_default(),
            r.info_kind == Some(InfoKind::Bridge),
            r.info_data is None,
            r.port_kind is None,
            r.port_data is None,
            r.extra_attributes@.len() == 1,
            spec_is_name_attribute(r.extra_attributes@[0], name@),
    {
        let text = String::from_str(name);
        LinkMessageBuilder::<LinkBridge>::new_with_info_kind(InfoKind::Bridge).name(text)
    }
    /// The result of appending one attribute to the builder's bridge
    /// data list: a missing list is created, a list of another kind is
    /// left alone.
    pub open spec fn spec_appends(self, r: Self, info: InfoBridge) -> bool {
        &&& r.spec_same_but_info_data(self)
        &&& (self.info_data is None ==> (r.info_data matches Some(InfoData::Bridge(v)) && v@
            == seq![info]))
        &&& (self.info_data matches Some(InfoData::Bridge(v0)) ==> (r.info_data matches Some(
            InfoData::Bridge(v),
        ) && v@ == v0@.push(info)))
        &&& (!(self.info_data is None || self.info_data matches Some(InfoData::Bridge(_)))
            ==> r.info_data == self.info_data)
    }

    /// Append one attribute to the bridge data list.
    pub fn append_info_data(self, info: InfoBridge) -> (r: Self)
        ensures
            self.spec_appends(r, info),
    {
        let mut ret = self;
        ret.info_data = match ret.info_data {
            None => {
                let mut infos: Vec<InfoBridge> = Vec::new();
                infos.push(info);
                proof {
                    assert(infos@ =~= seq![info]);
                }
                Some(InfoData::Bridge(infos))
            },
            Some(InfoData::Bridge(mut infos)) => {
                infos.push(info);
                Some(InfoData::Bridge(infos))
            },
            other => other,
        };
        ret
    }

    /// The result of applying one boolean bridge option: the bridge data
    /// list absorbs it as [`spec_apply_bool_opt`] describes; a missing
    /// list is created; a list of another kind is left alone.
    pub open spec fn spec_bool_opt_set(self, r: Self, opt: u32, value: bool) -> bool {
        &&& r.spec_same_but_info_data(self)
        &&& (self.info_data is None ==> (r.info_data matches Some(InfoData::Bridge(v)) && v@
            == spec_apply_bool_opt(Seq::empty(), opt, value)))
        &&& (self.info_data matches Some(InfoData::Bridge(v0)) ==> (r.info_data matches Some(
            InfoData::Bridge(v),
        ) && v@ == spec_apply_bool_opt(v0@, opt, value)))
        &&& (!(self.info_data is None || self.info_data matches Some(InfoData::Bridge(_)))
            ==> r.info_data == self.info_data)
    }

    /// Set or clear one boolean bridge option. The options travel in a
    /// single `MultiBoolOpt` block, so an existing block is updated in
    /// place and a new one is appended otherwise.
    pub fn set_boolean_opt(self, opt: u32, value: bool) -> (r: Self)
        ensures
            self.spec_bool_opt_set(r, opt, value),
    {
        let mut ret = self;
        ret.info_data = match ret.info_data {
            None => {
                let mut infos: Vec<InfoBridge> = Vec::new();
                infos.push(
                    InfoBridge::MultiBoolOpt(
                        BridgeBooleanOptions { value: if value { opt } else { 0 }, mask: opt },
                    ),
                );
                proof {
                    lemma_apply_bool_opt_absent(Seq::empty(), opt, value);
                    assert(infos@ =~= spec_apply_bool_opt(Seq::empty(), opt, value));
                }
                Some(InfoData::Bridge(infos))
            },
            Some(InfoData::Bridge(mut infos)) => {
                let ghost infos0 = infos@;
                let n: usize = infos.len();
                let mut i: usize = 0;
                let mut found: bool = false;
                while i < n
                    invariant
                        n == infos@.len(),
                        i <= n,
                        found ==> infos@ == spec_apply_bool_opt(infos0, opt, value),
                        found ==> i == n,
                        !found ==> {
                            &&& infos@ == infos0
                            &&& forall|j: int|
                                0 <= j < i ==> !(#[trigger] infos@[j] matches
                                InfoBridge::MultiBoolOpt(_))
                        },
                    decreases n - i,
                {
                    match infos[i] {
                        InfoBridge::MultiBoolOpt(options) => {
                            proof {
                                lemma_apply_bool_opt_at(infos0, i as int, opt, value);
                            }
                            let updated = BridgeBooleanOptions {
                                value: if value {
                                    options.value | opt
                                } else {
                                    options.value & !opt
                                },
                                mask: options.mask | opt,
                            };
                            infos.set(i, InfoBridge::MultiBoolOpt(updated));
                            found = true;
                            i = n;
                        },
                        _ => {
                            i += 1;
                        },
                    }
                }
                if !found {
                    proof {
                        lemma_apply_bool_opt_absent(infos0, opt, value);
                    }
                    infos.push(
                        InfoBridge::MultiBoolOpt(
                            BridgeBooleanOptions {
                                value: if value { opt } else { 0 },
                                mask: opt,
                            },
                        ),
                    );
                }
                Some(InfoData::Bridge(infos))
            },
            other => other,
        };
        ret
    }

    /// Set the `ageing_time` bridge attribute.
    pub fn ageing_time(self, value: u32) -> (r: Self)
        ensures
            self.spec_appends(r, InfoBridge::AgeingTime(value)),
    {
        self.append_info_data(InfoBridge::AgeingTime(value))
    }

    /// Set the `group_fwd_mask` bridge attribute.
    pub fn group_fwd_mask(self, value: u16) -> (r: Self)
        ensures
            self.spec_appends(r, InfoBridge::GroupFwdMask(value)),
    {
        self.append_info_data(InfoBridge::GroupFwdMask(value))
    }

    /// Set the `group_address` bridge attribute.
    pub fn group_address(self, value: [u8; 6]) -> (r: Self)
        ensures
            self.spec_appends(r, InfoBridge::GroupAddr(value)),
    {
        self.append_info_data(InfoBridge::GroupAddr(value))
    }

    /// Set the `forward_delay` bridge attribute.
    pub fn forward_delay(self, value: u32) -> (r: Self)
        ensures
            self.spec_appends(r, InfoBridge::ForwardDelay(value)),
    {
        self.append_info_data(InfoBridge::ForwardDelay(value))
    }

    /// Set the `hello_time` bridge attribute.
    pub fn hello_time(self, value: u32) -> (r: Self)
        ensures
            self.spec_appends(r, InfoBridge::HelloTime(value)),
    {
        self.append_info_data(InfoBridge::HelloTime(value))
    }

    /// Set the `max_age` bridge attribute.
    pub fn max_age(self, value: u32) -> (r: Self)
        ensures
            self.spec_appends(r, InfoBridge::MaxAge(value)),
    {
        self.append_info_data(InfoBridge::MaxAge(value))
    }

    /// Set the `stp_state` bridge attribute.
    pub fn stp_state(self, value: BridgeStpState) -> (r: Self)
        ensures
            self.spec_appends(r, InfoBridge::StpState(value)),
    {
        self.append_info_data(InfoBridge::StpState(value))
    }

    /// Set the `priority` bridge attribute.
    pub fn priority(self, value: u16) -> (r: Self)
        ensures
            self.spec_appends(r, InfoBridge::Priority(value)),
    {
        self.append_info_data(InfoBridge::Priority(value))
    }

    /// Set the `fdb_max_learned` bridge attribute.
    pub fn fdb_max_learned(self, value: u32) -> (r: Self)
        ensures
            self.spec_appends(r, InfoBridge::FdbMaxLearned(value)),
    {
        self.append_info_data(InfoBridge::FdbMaxLearned(value))
    }

    /// Set the `vlan_filtering` bridge attribute.
    pub fn vlan_filtering(self, value: bool) -> (r: Self)
        ensures
            self.spec_appends(r, InfoBridge::VlanFiltering(value)),
    {
        self.append_info_data(InfoBridge::VlanFiltering(value))
    }

    /// Set the `vlan_protocol` bridge attribute.
    pub fn vlan_protocol(self, value: VlanProtocol) -> (r: Self)
        ensures
            self.spec_appends(r, InfoBridge::VlanProtocol(value)),
    {
        self.append_info_data(InfoBridge::VlanProtocol(value))
    }

    /// Set the `vlan_default_pvid` bridge attribute.
    pub fn vlan_default_pvid(self, value: u16) -> (r: Self)
        ensures
            self.spec_appends(r, InfoBridge::VlanDefaultPvid(value)),
    {
        self.append_info_data(InfoBridge::VlanDefaultPvid(value))
    }

    /// Set the `vlan_stats_enabled` bridge attribute.
    pub fn vlan_stats_enabled(self, value: bool) -> (r: Self)
        ensures
            self.spec_appends(r, InfoBridge::VlanStatsEnabled(value)),
    {
        self.append_info_data(InfoBridge::VlanStatsEnabled(value))
    }

    /// Set the `vlan_stats_per_port` bridge attribute.
    pub fn vlan_stats_per_port(self, value: bool) -> (r: Self)
        ensures
            self.spec_appends(r, InfoBridge::VlanStatsPerPort(value)),
    {
        self.append_info_data(InfoBridge::VlanStatsPerPort(value))
    }

    /// Set the `mcast_snooping` bridge attribute.
    pub fn mcast_snooping(self, value: bool) -> (r: Self)
        ensures
            self.spec_appends(r, InfoBridge::MulticastSnooping(value)),
    {
        self.append_info_data(InfoBridge::MulticastSnooping(value))
    }

    /// Set the `mcast_router` bridge attribute.
    pub fn mcast_router(self, value: BridgeMulticastRouterType) -> (r: Self)
        ensures
            self.spec_appends(r, InfoBridge::MulticastRouter(value)),
    {
        self.append_info_data(InfoBridge::MulticastRouter(value))
    }

    /// Set the `mcast_query_use_ifaddr` bridge attribute.
    pub fn mcast_query_use_ifaddr(self, value: bool) -> (r: Self)
        ensures
            self.spec_appends(r, InfoBridge::MulticastQueryUseIfaddr(value)),
    {
        self.append_info_data(InfoBridge::MulticastQueryUseIfaddr(value))
    }

    /// Set the `mcast_querier` bridge attribute.
    pub fn mcast_querier(self, value: bool) -> (r: Self)
        ensures
            self.spec_appends(r, InfoBridge::MulticastQuerier(value)),
    {
        self.append_info_data(InfoBridge::MulticastQuerier(value))
    }

    /// Set the `mcast_hash_max` bridge attribute.
    pub fn mcast_hash_max(self, value: u32) -> (r: Self)
        ensures
            self.spec_appends(r, InfoBridge::MulticastHashMax(value)),
    {
        self.append_info_data(InfoBridge::MulticastHashMax(value))
    }

    /// Set the `mcast_last_member_count` bridge attribute.
    pub fn mcast_last_member_count(self, value: u32) -> (r: Self)
        ensures
            self.spec_appends(r, InfoBridge::MulticastLastMemberCount(value)),
    {
        self.append_info_data(InfoBridge::MulticastLastMemberCount(value))
    }

    /// Set the `mcast_startup_query_count` bridge attribute.
    pub fn mcast_startup_query_count(self, value: u32) -> (r: Self)
        ensures
            self.spec_appends(r, InfoBridge::MulticastStartupQueryCount(value)),
    {
        self.append_info_data(InfoBridge::MulticastStartupQueryCount(value))
    }

    /// Set the `mcast_last_member_interval` bridge attribute.
    pub fn mcast_last_member_interval(self, value: u64) -> (r: Self)
        ensures
            self.spec_appends(r, InfoBridge::MulticastLastMemberInterval(value)),
    {
        self.append_info_data(InfoBridge::MulticastLastMemberInterval(value))
    }

    /// Set the `mcast_membership_interval` bridge attribute.
    pub fn mcast_membership_interval(self, value: u64) -> (r: Self)
        ensures
            self.spec_appends(r, InfoBridge::MulticastMembershipInterval(value)),
    {
        self.append_info_data(InfoBridge::MulticastMembershipInterval(value))
    }

    /// Set the `mcast_querier_interval` bridge attribute.
    pub fn mcast_querier_interval(self, value: u64) -> (r: Self)
        ensures
            self.spec_appends(r, InfoBridge::MulticastQuerierInterval(value)),
    {
        self.append_info_data(InfoBridge::MulticastQuerierInterval(value))
    }

    /// Set the `mcast_query_interval` bridge attribute.
    pub fn mcast_query_interval(self, value: u64) -> (r: Self)
        ensures
            self.spec_appends(r, InfoBridge::MulticastQueryInterval(value)),
    {
        self.append_info_data(InfoBridge::MulticastQueryInterval(value))
    }

    /// Set the `mcast_query_response_interval` bridge attribute.
    pub fn mcast_query_response_interval(self, value: u64) -> (r: Self)
        ensures
            self.spec_appends(r, InfoBridge::MulticastQueryResponseInterval(value)),
    {
        self.append_info_data(InfoBridge::MulticastQueryResponseInterval(value))
    }

    /// Set the `mcast_startup_query_interval` bridge attribute.
    pub fn mcast_startup_query_interval(self, value: u64) -> (r: Self)
        ensures
            self.spec_appends(r, InfoBridge::MulticastStartupQueryInterval(value)),
    {
        self.append_info_data(InfoBridge::MulticastStartupQueryInterval(value))
    }

    /// Set the `mcast_stats_enabled` bridge attribute.
    pub fn mcast_stats_enabled(self, value: bool) -> (r: Self)
        ensures
            self.spec_appends(r, InfoBridge::MulticastStatsEnabled(value)),
    {
        self.append_info_data(InfoBridge::MulticastStatsEnabled(value))
    }

    /// Set the `mcast_igmp_version` bridge attribute.
    pub fn mcast_igmp_version(self, value: u8) -> (r: Self)
        ensures
            self.spec_appends(r, InfoBridge::MulticastIgmpVersion(value)),
    {
        self.append_info_data(InfoBridge::MulticastIgmpVersion(value))
    }

    /// Set the `mcast_mld_version` bridge attribute.
    pub fn mcast_mld_version(self, value: u8) -> (r: Self)
        ensures
            self.spec_appends(r, InfoBridge::MulticastMldVersion(value)),
    {
        self.append_info_data(InfoBridge::MulticastMldVersion(value))
    }

    /// Set the `nf_call_iptables` bridge attribute.
    pub fn nf_call_iptables(self, value: bool) -> (r: Self)
        ensures
            self.spec_appends(r, InfoBridge::NfCallIpTables(value)),
    {
        self.append_info_data(InfoBridge::NfCallIpTables(value))
    }

    /// Set the `nf_call_ip6tables` bridge attribute.
    pub fn nf_call_ip6tables(self, value: bool) -> (r: Self)
        ensures
            self.spec_appends(r, InfoBridge::NfCallIp6Tables(value)),
    {
        self.append_info_data(InfoBridge::NfCallIp6Tables(value))
    }

    /// Set the `nf_call_arptables` bridge attribute.
    pub fn nf_call_arptables(self, value: bool) -> (r: Self)
        ensures
            self.spec_appends(r, InfoBridge::NfCallArpTables(value)),
    {
        self.append_info_data(InfoBridge::NfCallArpTables(value))
    }

    /// Enable or disable MST (multiple spanning trees).
    pub fn mst_enabled(self, value: bool) -> (r: Self)
        ensures
            self.spec_bool_opt_set(r, BRIDGE_BOOL_OPT_MST_ENABLE, value),
    {
        self.set_boolean_opt(BRIDGE_BOOL_OPT_MST_ENABLE, value)
    }

    /// Enable or disable the no-link-local-learn option.
    pub fn no_linklocal_learn(self, value: bool) -> (r: Self)
        ensures
            self.spec_bool_opt_set(r, BRIDGE_BOOL_OPT_NO_LINK_LOCAL_LEARN, value),
    {
        self.set_boolean_opt(BRIDGE_BOOL_OPT_NO_LINK_LOCAL_LEARN, value)
    }

    /// Keep local FDB entries on VLAN 0.
    pub fn fdb_local_vlan_0(self, value: bool) -> (r: Self)
        ensures
            self.spec_bool_opt_set(r, BRIDGE_BOOL_OPT_FDB_LOCAL_VLAN_0, value),
    {
        self.set_boolean_opt(BRIDGE_BOOL_OPT_FDB_LOCAL_VLAN_0, value)
    }

    /// Enable or disable per-VLAN multicast snooping.
    pub fn mcast_vlan_snooping(self, value: bool) -> (r: Self)
        ensures
            self.spec_bool_opt_set(r, BRIDGE_BOOL_OPT_VLAN_MULTICAST_SNOOPING, value),
    {
        self.set_boolean_opt(BRIDGE_BOOL_OPT_VLAN_MULTICAST_SNOOPING, value)
    }

    /// Notify on MDB offload failure.
    pub fn mdb_offload_fail_notification(self, value: bool) -> (r: Self)
        ensures
            self.spec_bool_opt_set(r, BRIDGE_BOOL_OPT_MDB_OFFLOAD_FAIL_NOTIF, value),
    {
        self.set_boolean_opt(BRIDGE_BOOL_OPT_MDB_OFFLOAD_FAIL_NOTIF, value)
    }
}

} // verus!
