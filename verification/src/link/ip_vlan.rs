//! IP VLAN interfaces.

use vstd::prelude::*;
use crate::link::builder::{spec_is_name_attribute, LinkMessageBuilder};
use crate::packet_route::link::{InfoData, InfoKind, InfoIpVlan, IpVlanFlags, LinkAttribute, LinkHeader, IpVlanMode};

verus! {

/// Represents an IP VLAN interface.
#[derive(Debug)]
pub struct LinkIpVlan;

impl LinkIpVlan {
    /// Equal to `LinkMessageBuilder::<LinkIpVlan>::new(name).link(..).mode(..).flags(..)`.
    pub fn new(name: &str, base_iface_index: u32, mode: IpVlanMode, flags: IpVlanFlags) -> (r: LinkMessageBuilder<LinkIpVlan>)
        ensures
            r.header == LinkHeader::spec_default(),
            r.info_kind == Some(InfoKind::IpVlan),
            r.port_kind is None,
            r.port_data is None,
            r.extra_attributes@.len() == 2,
            spec_is_name_attribute(r.extra_attributes@[0], name@),
            r.extra_attributes@[1] == LinkAttribute::Link(base_iface_index),
            r.info_data matches Some(InfoData::IpVlan(v)) && v@ == seq![
                InfoIpVlan::Mode(mode),
                InfoIpVlan::Flags(flags),
            ],
    {
        LinkMessageBuilder::<LinkIpVlan>::new(name).link(base_iface_index).mode(mode).flags(flags)
    }
}

impl LinkMessageBuilder<LinkIpVlan> {
    /// Create a [`LinkMessageBuilder`] for this link kind.
    pub fn new(name: &str) -> (r: Self)
        ensures
            r.header == LinkHeader::spec_default(),
            r.info_kind == Some(InfoKind::IpVlan),
            r.info_data is None,
            r.port_kind is None,
            r.port_data is None,
            r.extra_attributes@.len() == 1,
            spec_is_name_attribute(r.extra_attributes@[0], name@),
    {
        let text = String::from_str(name);
        LinkMessageBuilder::<LinkIpVlan>::new_with_info_kind(InfoKind::IpVlan).name(text)
    }
    /// The result of appending one IP VLAN attribute to the builder's
    /// IP VLAN data list: a missing list is created, a list of another
    /// kind is left alone.
    pub open spec fn spec_appends(self, r: Self, info: InfoIpVlan) -> bool {
        &&& r.spec_same_but_info_data(self)
        &&& (self.info_data is None ==> (r.info_data matches Some(InfoData::IpVlan(v)) && v@
            == seq![info]))
        &&& (self.info_data matches Some(InfoData::IpVlan(v0)) ==> (r.info_data matches Some(
            InfoData::IpVlan(v),
        ) && v@ == v0@.push(info)))
        &&& (!(self.info_data is None || self.info_data matches Some(InfoData::IpVlan(_)))
            ==> r.info_data == self.info_data)
    }

    /// Append one IP VLAN attribute to the IP VLAN data list.
    pub fn append_info_data(self, info: InfoIpVlan) -> (r: Self)
        ensures
            self.spec_appends(r, info),
    {
        let mut ret = self;
        ret.info_data = match ret.info_data {
            None => {
                let mut infos: Vec<InfoIpVlan> = Vec::new();
                infos.push(info);
                proof {
                    assert(infos@ =~= seq![info]);
                }
                Some(InfoData::IpVlan(infos))
            },
            Some(InfoData::IpVlan(mut infos)) => {
                infos.push(info);
                Some(InfoData::IpVlan(infos))
            },
            other => other,
        };
        ret
    }

    /// Set the operating mode.
    pub fn mode(self, mode: IpVlanMode) -> (r: Self)
        ensures
            self.spec_appends(r, InfoIpVlan::Mode(mode)),
    {
        self.append_info_data(InfoIpVlan::Mode(mode))
    }

    /// Set the mode flags.
    pub fn flags(self, flags: IpVlanFlags) -> (r: Self)
        ensures
            self.spec_appends(r, InfoIpVlan::Flags(flags)),
    {
        self.append_info_data(InfoIpVlan::Flags(flags))
    }
}

} // verus!
