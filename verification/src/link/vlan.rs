//! VLAN (IEEE 802.1Q) interfaces.

use vstd::prelude::*;
use crate::link::builder::{spec_is_name_attribute, LinkMessageBuilder};
use crate::packet_route::link::{
    InfoData, InfoKind, InfoVlan, LinkAttribute, LinkHeader, VlanQosMapping,
};

verus! {

/// A quality-of-service mapping between the internal priority `from` and
/// the external VLAN priority `to`.
#[derive(Clone, Copy, Debug, PartialEq, Eq, Structural)]
pub struct QosMapping {
    pub from: u32,
    pub to: u32,
}

/// The wire form of a list of QoS mappings.
pub open spec fn spec_qos_mappings(mappings: Seq<QosMapping>) -> Seq<VlanQosMapping> {
    mappings.map_values(|m: QosMapping| VlanQosMapping::Mapping(m.from, m.to))
}

/// Convert QoS mappings to their wire form.
pub fn qos_mappings(mappings: &Vec<QosMapping>) -> (r: Vec<VlanQosMapping>)
    ensures
        r@ == spec_qos_mappings(mappings@),
{
    let n: usize = mappings.len();
    let mut out: Vec<VlanQosMapping> = Vec::new();
    let mut i: usize = 0;
    while i < n
        invariant
            n == mappings@.len(),
            i <= n,
            out@.len() == i,
            forall|j: int|
                0 <= j < i ==> out@[j] == VlanQosMapping::Mapping(
                    mappings@[j].from,
                    mappings@[j].to,
                ),
        decreases n - i,
    {
        let m = mappings[i];
        out.push(VlanQosMapping::Mapping(m.from, m.to));
        i += 1;
    }
    proof {
        assert(out@ =~= spec_qos_mappings(mappings@));
    }
    out
}

/// The VLAN entry list after the two QoS lists are appended: a non-empty
/// ingress list first, then a non-empty egress list.
pub open spec fn spec_qos_appended(
    pre: Seq<InfoVlan>,
    post: Seq<InfoVlan>,
    ingress: Seq<VlanQosMapping>,
    egress: Seq<VlanQosMapping>,
) -> bool {
    if ingress.len() > 0 && egress.len() > 0 {
        &&& post.len() == pre.len() + 2
        &&& post.take(pre.len() as int) == pre
        &&& (post[pre.len() as int] matches InfoVlan::IngressQos(v) && v@ == ingress)
        &&& (post[pre.len() as int + 1] matches InfoVlan::EgressQos(v) && v@ == egress)
    } else if ingress.len() > 0 {
        &&& post.len() == pre.len() + 1
        &&& post.take(pre.len() as int) == pre
        &&& (post[pre.len() as int] matches InfoVlan::IngressQos(v) && v@ == ingress)
    } else if egress.len() > 0 {
        &&& post.len() == pre.len() + 1
        &&& post.take(pre.len() as int) == pre
        &&& (post[pre.len() as int] matches InfoVlan::EgressQos(v) && v@ == egress)
    } else {
        post == pre
    }
}

/// Represents a VLAN interface.
#[derive(Debug)]
pub struct LinkVlan;

impl LinkVlan {
    /// Equal to `LinkMessageBuilder::<LinkVlan>::new(name).id(..).link(..)`.
    pub fn new(name: &str, base_iface_index: u32, vlan_id: u16) -> (r: LinkMessageBuilder<
        LinkVlan,
    >)
        ensures
            r.header == LinkHeader::spec_default(),
            r.info_kind == Some(InfoKind::Vlan),
            r.port_kind is None,
            r.port_data is None,
            r.extra_attributes@.len() == 2,
            spec_is_name_attribute(r.extra_attributes@[0], name@),
            r.extra_attributes@[1] == LinkAttribute::Link(base_iface_index),
            r.info_data matches Some(InfoData::Vlan(v)) && v@ == seq![InfoVlan::Id(vlan_id)],
    {
        LinkMessageBuilder::<LinkVlan>::new(name).id(vlan_id).link(base_iface_index)
    }
}

impl LinkMessageBuilder<LinkVlan> {
    /// Create a [`LinkMessageBuilder`] for a VLAN.
    pub fn new(name: &str) -> (r: Self)
        ensures
            r.header == LinkHeader::spec_default(),
            r.info_kind == Some(InfoKind::Vlan),
            r.info_data is None,
            r.port_kind is None,
            r.port_data is None,
            r.extra_attributes@.len() == 1,
            spec_is_name_attribute(r.extra_attributes@[0], name@),
    {
        let text = String::from_str(name);
        LinkMessageBuilder::<LinkVlan>::new_with_info_kind(InfoKind::Vlan).name(text)
    }

    /// The result of appending one attribute to the builder's VLAN data
    /// list: a missing list is created, a list of another kind is left
    /// alone.
    pub open spec fn spec_appends(self, r: Self, info: InfoVlan) -> bool {
        &&& r.spec_same_but_info_data(self)
        &&& (self.info_data is None ==> (r.info_data matches Some(InfoData::Vlan(v)) && v@
            == seq![info]))
        &&& (self.info_data matches Some(InfoData::Vlan(v0)) ==> (r.info_data matches Some(
            InfoData::Vlan(v),
        ) && v@ == v0@.push(info)))
        &&& (!(self.info_data is None || self.info_data matches Some(InfoData::Vlan(_)))
            ==> r.info_data == self.info_data)
    }

    /// Append one attribute to the VLAN data list.
    pub fn append_info_data(self, info: InfoVlan) -> (r: Self)
        ensures
            self.spec_appends(r, info),
    {
        let mut ret = self;
        ret.info_data = match ret.info_data {
            None => {
                let mut infos: Vec<InfoVlan> = Vec::new();
                infos.push(info);
                proof {
                    assert(infos@ =~= seq![info]);
                }
                Some(InfoData::Vlan(infos))
            },
            Some(InfoData::Vlan(mut infos)) => {
                infos.push(info);
                Some(InfoData::Vlan(infos))
            },
            other => other,
        };
        ret
    }

    /// Set the VLAN id.
    pub fn id(self, vlan_id: u16) -> (r: Self)
        ensures
            self.spec_appends(r, InfoVlan::Id(vlan_id)),
    {
        self.append_info_data(InfoVlan::Id(vlan_id))
    }

    /// Set the ingress and egress QoS mappings. An empty list adds no
    /// attribute.
    pub fn qos(self, ingress_qos: Vec<QosMapping>, egress_qos: Vec<QosMapping>) -> (r: Self)
        ensures
            r.spec_same_but_info_data(self),
            self.info_data is None && ingress_qos@.len() == 0 && egress_qos@.len() == 0
                ==> r.info_data is None,
            self.info_data is None && ingress_qos@.len() + egress_qos@.len() > 0 ==> (
            r.info_data matches Some(InfoData::Vlan(v)) && spec_qos_appended(
                Seq::empty(),
                v@,
                spec_qos_mappings(ingress_qos@),
                spec_qos_mappings(egress_qos@),
            )),
            self.info_data matches Some(InfoData::Vlan(v0)) ==> (r.info_data matches Some(
                InfoData::Vlan(v),
            ) && spec_qos_appended(
                v0@,
                v@,
                spec_qos_mappings(ingress_qos@),
                spec_qos_mappings(egress_qos@),
            )),
            !(self.info_data is None || self.info_data matches Some(InfoData::Vlan(_)))
                ==> r.info_data == self.info_data,
    {
        let mut ret = self;
        match ret.info_data {
            None => {},
            Some(InfoData::Vlan(_)) => {},
            _ => {
                return ret;
            },
        }
        let had_list: bool = matches!(ret.info_data, Some(InfoData::Vlan(_)));
        let ghost pre: Seq<InfoVlan> = if self.info_data is Some && self.info_data.unwrap()
            is Vlan {
            self.info_data.unwrap()->Vlan_0@
        } else {
            Seq::empty()
        };
        // Hold the entries in one list so both appends land in it even
        // when no list existed yet.
        let mut infos: Vec<InfoVlan> = match ret.info_data {
            Some(InfoData::Vlan(infos)) => infos,
            _ => Vec::new(),
        };
        ret.info_data = None;

        let ingress = qos_mappings(&ingress_qos);
        if ingress.len() > 0 {
            infos.push(InfoVlan::IngressQos(ingress));
        }
        let egress = qos_mappings(&egress_qos);
        if egress.len() > 0 {
            infos.push(InfoVlan::EgressQos(egress));
        }
        proof {
            assert(infos@.take(pre.len() as int) =~= pre);
        }
        if had_list || infos.len() > 0 {
            ret.info_data = Some(InfoData::Vlan(infos));
        }
        ret
    }
}

} // verus!
