//! IP VTAP interfaces.

use vstd::prelude::*;
use crate::link::builder::{spec_is_name_attribute, LinkMessageBuilder};
use crate::packet_route::link::{InfoData, InfoKind, InfoIpVtap, IpVtapFlags, LinkAttribute, LinkHeader, IpVtapMode};

verus! {

/// Represents an IP VTAP interface.
#[derive(Debug)]
pub struct LinkIpVtap;

impl LinkIpVtap {
    /// Equal to `LinkMessageBuilder::<LinkIpVtap>::new(name).link(..).mode(..).flags(..)`.
    pub fn new(name: &str, base_iface_index: u32, mode: IpVtapMode, flags: IpVtapFlags) -> (r: LinkMessageBuilder<LinkIpVtap>)
        ensures
            r.header == LinkHeader::spec_default(),
            r.info_kind == Some(InfoKind::IpVtap),
            r.port_kind is None,
            r.port_data is None,
            r.extra_attributes@.len() == 2,
            spec_is_name_attribute(r.extra_attributes@[0], name@),
            r.extra_attributes@[1] == LinkAttribute::Link(base_iface_index),
            r.info_data matches Some(InfoData::IpVtap(v)) && v@ == seq![
                InfoIpVtap::Mode(mode),
                InfoIpVtap::Flags(flags),
            ],
    {
        LinkMessageBuilder::<LinkIpVtap>::new(name).link(base_iface_index).mode(mode).flags(flags)
    }
}

impl LinkMessageBuilder<LinkIpVtap> {
    /// Create a [`LinkMessageBuilder`] for this link kind.
    pub fn new(name: &str) -> (r: Self)
        ensures
            r.header == LinkHeader::spec_default(),
            r.info_kind == Some(InfoKind::IpVtap),
            r.info_data is None,
            r.port_kind is None,
            r.port_data is None,
            r.extra_attributes@.len() == 1,
            spec_is_name_attribute(r.extra_attributes@[0], name@),
    {
        let text = String::from_str(name);
        LinkMessageBuilder::<LinkIpVtap>::new_with_info_kind(InfoKind::IpVtap).name(text)
    }
    /// The result of appending one IP VTAP attribute to the builder's
    /// IP VTAP data list: a missing list is created, a list of another
    /// kind is left alone.
    pub open spec fn spec_appends(self, r: Self, info: InfoIpVtap) -> bool {
        &&& r.spec_same_but_info_data(self)
        &&& (self.info_data is None ==> (r.info_data matches Some(InfoData::IpVtap(v)) && v@
            == seq![info]))
        &&& (self.info_data matches Some(InfoData::IpVtap(v0)) ==> (r.info_data matches Some(
            InfoData::IpVtap(v),
        ) && v@ == v0@.push(info)))
        &&& (!(self.info_data is None || self.info_data matches Some(InfoData::IpVtap(_)))
            ==> r.info_data == self.info_data)
    }

    /// Append one IP VTAP attribute to the IP VTAP data list.
    pub fn append_info_data(self, info: InfoIpVtap) -> (r: Self)
        ensures
            self.spec_appends(r, info),
    {
        let mut ret = self;
        ret.info_data = match ret.info_data {
            None => {
                let mut infos: Vec<InfoIpVtap> = Vec::new();
                infos.push(info);
                proof {
                    assert(infos@ =~= seq![info]);
                }
                Some(InfoData::IpVtap(infos))
            },
            Some(InfoData::IpVtap(mut infos)) => {
                infos.push(info);
                Some(InfoData::IpVtap(infos))
            },
            other => other,
        };
        ret
    }

    /// Set the operating mode.
    pub fn mode(self, mode: IpVtapMode) -> (r: Self)
        ensures
            self.spec_appends(r, InfoIpVtap::Mode(mode)),
    {
        self.append_info_data(InfoIpVtap::Mode(mode))
    }

    /// Set the mode flags.
    pub fn flags(self, flags: IpVtapFlags) -> (r: Self)
        ensures
            self.spec_appends(r, InfoIpVtap::Flags(flags)),
    {
        self.append_info_data(InfoIpVtap::Flags(flags))
    }
}

} // verus!
