//! MAC VLAN interfaces.

use vstd::prelude::*;
use crate::link::builder::{spec_is_name_attribute, LinkMessageBuilder};
use crate::packet_route::link::{InfoData, InfoKind, InfoMacVlan, LinkAttribute, LinkHeader, MacVlanMode};

verus! {

/// Represents a MAC VLAN interface.
#[derive(Debug)]
pub struct LinkMacVlan;

impl LinkMacVlan {
    /// Equal to `LinkMessageBuilder::<LinkMacVlan>::new(name).link(..).mode(..)`.
    pub fn new(name: &str, base_iface_index: u32, mode: MacVlanMode) -> (r: LinkMessageBuilder<LinkMacVlan>)
        ensures
            r.header == LinkHeader::spec_default(),
            r.info_kind == Some(InfoKind::MacVlan),
            r.port_kind is None,
            r.port_data is None,
            r.extra_attributes@.len() == 2,
            spec_is_name_attribute(r.extra_attributes@[0], name@),
            r.extra_attributes@[1] == LinkAttribute::Link(base_iface_index),
            r.info_data matches Some(InfoData::MacVlan(v)) && v@ == seq![InfoMacVlan::Mode(mode)],
    {
        LinkMessageBuilder::<LinkMacVlan>::new(name).link(base_iface_index).mode(mode)
    }
}

impl LinkMessageBuilder<LinkMacVlan> {
    /// Create a [`LinkMessageBuilder`] for this link kind.
    pub fn new(name: &str) -> (r: Self)
        ensures
            r.header == LinkHeader::spec_default(),
            r.info_kind == Some(InfoKind::MacVlan),
            r.info_data is None,
            r.port_kind is None,
            r.port_data is None,
            r.extra_attributes@.len() == 1,
            spec_is_name_attribute(r.extra_attributes@[0], name@),
    {
        let text = String::from_str(name);
        LinkMessageBuilder::<LinkMacVlan>::new_with_info_kind(InfoKind::MacVlan).name(text)
    }
    /// The result of appending one MAC VLAN attribute to the builder's
    /// MAC VLAN data list: a missing list is created, a list of another
    /// kind is left alone.
    pub open spec fn spec_appends(self, r: Self, info: InfoMacVlan) -> bool {
        &&& r.spec_same_but_info_data(self)
        &&& (self.info_data is None ==> (r.info_data matches Some(InfoData::MacVlan(v)) && v@
            == seq![info]))
        &&& (self.info_data matches Some(InfoData::MacVlan(v0)) ==> (r.info_data matches Some(
            InfoData::MacVlan(v),
        ) && v@ == v0@.push(info)))
        &&& (!(self.info_data is None || self.info_data matches Some(InfoData::MacVlan(_)))
            ==> r.info_data == self.info_data)
    }

    /// Append one MAC VLAN attribute to the MAC VLAN data list.
    pub fn append_info_data(self, info: InfoMacVlan) -> (r: Self)
        ensures
            self.spec_appends(r, info),
    {
        let mut ret = self;
        ret.info_data = match ret.info_data {
            None => {
                let mut infos: Vec<InfoMacVlan> = Vec::new();
                infos.push(info);
                proof {
                    assert(infos@ =~= seq![info]);
                }
                Some(InfoData::MacVlan(infos))
            },
            Some(InfoData::MacVlan(mut infos)) => {
                infos.push(info);
                Some(InfoData::MacVlan(infos))
            },
            other => other,
        };
        ret
    }

    /// Set the operating mode.
    pub fn mode(self, mode: MacVlanMode) -> (r: Self)
        ensures
            self.spec_appends(r, InfoMacVlan::Mode(mode)),
    {
        self.append_info_data(InfoMacVlan::Mode(mode))
    }
}

} // verus!
