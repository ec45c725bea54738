//! MAC VTAP interfaces.

use vstd::prelude::*;
use crate::link::builder::{spec_is_name_attribute, LinkMessageBuilder};
use crate::packet_route::link::{InfoData, InfoKind, InfoMacVtap, LinkAttribute, LinkHeader, MacVtapMode};

verus! {

/// Represents a MAC VTAP interface.
#[derive(Debug)]
pub struct LinkMacVtap;

impl LinkMacVtap {
    /// Equal to `LinkMessageBuilder::<LinkMacVtap>::new(name).link(..).mode(..)`.
    pub fn new(name: &str, base_iface_index: u32, mode: MacVtapMode) -> (r: LinkMessageBuilder<LinkMacVtap>)
        ensures
            r.header == LinkHeader::spec_default(),
            r.info_kind == Some(InfoKind::MacVtap),
            r.port_kind is None,
            r.port_data is None,
            r.extra_attributes@.len() == 2,
            spec_is_name_attribute(r.extra_attributes@[0], name@),
            r.extra_attributes@[1] == LinkAttribute::Link(base_iface_index),
            r.info_data matches Some(InfoData::MacVtap(v)) && v@ == seq![InfoMacVtap::Mode(mode)],
    {
        LinkMessageBuilder::<LinkMacVtap>::new(name).link(base_iface_index).mode(mode)
    }
}

impl LinkMessageBuilder<LinkMacVtap> {
    /// Create a [`LinkMessageBuilder`] for this link kind.
    pub fn new(name: &str) -> (r: Self)
        ensures
            r.header == LinkHeader::spec_default(),
            r.info_kind == Some(InfoKind::MacVtap),
            r.info_data is None,
            r.port_kind is None,
            r.port_data is None,
            r.extra_attributes@.len() == 1,
            spec_is_name_attribute(r.extra_attributes@[0], name@),
    {
        let text = String::from_str(name);
        LinkMessageBuilder::<LinkMacVtap>::new_with_info_kind(InfoKind::MacVtap).name(text)
    }
    /// The result of appending one MAC VTAP attribute to the builder's
    /// MAC VTAP data list: a missing list is created, a list of another
    /// kind is left alone.
    pub open spec fn spec_appends(self, r: Self, info: InfoMacVtap) -> bool {
        &&& r.spec_same_but_info_data(self)
        &&& (self.info_data is None ==> (r.info_data matches Some(InfoData::MacVtap(v)) && v@
            == seq![info]))
        &&& (self.info_data matches Some(InfoData::MacVtap(v0)) ==> (r.info_data matches Some(
            InfoData::MacVtap(v),
        ) && v@ == v0@.push(info)))
        &&& (!(self.info_data is None || self.info_data matches Some(InfoData::MacVtap(_)))
            ==> r.info_data == self.info_data)
    }

    /// Append one MAC VTAP attribute to the MAC VTAP data list.
    pub fn append_info_data(self, info: InfoMacVtap) -> (r: Self)
        ensures
            self.spec_appends(r, info),
    {
        let mut ret = self;
        ret.info_data = match ret.info_data {
            None => {
                let mut infos: Vec<InfoMacVtap> = Vec::new();
                infos.push(info);
                proof {
                    assert(infos@ =~= seq![info]);
                }
                Some(InfoData::MacVtap(infos))
            },
            Some(InfoData::MacVtap(mut infos)) => {
                infos.push(info);
                Some(InfoData::MacVtap(infos))
            },
            other => other,
        };
        ret
    }

    /// Set the operating mode.
    pub fn mode(self, mode: MacVtapMode) -> (r: Self)
        ensures
            self.spec_appends(r, InfoMacVtap::Mode(mode)),
    {
        self.append_info_data(InfoMacVtap::Mode(mode))
    }
}

} // verus!
