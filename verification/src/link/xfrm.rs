//! XFRM (IPsec) interfaces.

use vstd::prelude::*;
use crate::link::builder::{spec_is_name_attribute, LinkMessageBuilder};
use crate::packet_route::link::{InfoData, InfoKind, InfoXfrm, LinkHeader};

verus! {

/// Represents an XFRM interface.
#[derive(Debug)]
pub struct LinkXfrm;

impl LinkXfrm {
    /// Equal to `LinkMessageBuilder::<LinkXfrm>::new(name).dev(..).if_id(..)`.
    pub fn new(name: &str, base_iface_index: u32, if_id: u32) -> (r: LinkMessageBuilder<LinkXfrm>)
        ensures
            r.header == LinkHeader::spec_default(),
            r.info_kind == Some(InfoKind::Xfrm),
            r.port_kind is None,
            r.port_data is None,
            r.extra_attributes@.len() == 1,
            spec_is_name_attribute(r.extra_attributes@[0], name@),
            r.info_data matches Some(InfoData::Xfrm(v)) && v@ == seq![
                InfoXfrm::Link(base_iface_index),
                InfoXfrm::IfId(if_id),
            ],
    {
        LinkMessageBuilder::<LinkXfrm>::new(name).dev(base_iface_index).if_id(if_id)
    }
}

impl LinkMessageBuilder<LinkXfrm> {
    /// Create a [`LinkMessageBuilder`] for this link kind.
    pub fn new(name: &str) -> (r: Self)
        ensures
            r.header == LinkHeader::spec_default(),
            r.info_kind == Some(InfoKind::Xfrm),
            r.info_data is None,
            r.port_kind is None,
            r.port_data is None,
            r.extra_attributes@.len() == 1,
            spec_is_name_attribute(r.extra_attributes@[0], name@),
    {
        let text = String::from_str(name);
        LinkMessageBuilder::<LinkXfrm>::new_with_info_kind(InfoKind::Xfrm).name(text)
    }
    /// The result of appending one XFRM attribute to the builder's
    /// XFRM data list: a missing list is created, a list of another
    /// kind is left alone.
    pub open spec fn spec_appends(self, r: Self, info: InfoXfrm) -> bool {
        &&& r.spec_same_but_info_data(self)
        &&& (self.info_data is None ==> (r.info_data matches Some(InfoData::Xfrm(v)) && v@
            == seq![info]))
        &&& (self.info_data matches Some(InfoData::Xfrm(v0)) ==> (r.info_data matches Some(
            InfoData::Xfrm(v),
        ) && v@ == v0@.push(info)))
        &&& (!(self.info_data is None || self.info_data matches Some(InfoData::Xfrm(_)))
            ==> r.info_data == self.info_data)
    }

    /// Append one XFRM attribute to the XFRM data list.
    pub fn append_info_data(self, info: InfoXfrm) -> (r: Self)
        ensures
            self.spec_appends(r, info),
    {
        let mut ret = self;
        ret.info_data = match ret.info_data {
            None => {
                let mut infos: Vec<InfoXfrm> = Vec::new();
                infos.push(info);
                proof {
                    assert(infos@ =~= seq![info]);
                }
                Some(InfoData::Xfrm(infos))
            },
            Some(InfoData::Xfrm(mut infos)) => {
                infos.push(info);
                Some(InfoData::Xfrm(infos))
            },
            other => other,
        };
        ret
    }

    /// This is equivalent to the `if_id IF_ID` in `ip link add name NAME type xfrm if_id IF_ID`.
    pub fn if_id(self, if_id: u32) -> (r: Self)
        ensures
            self.spec_appends(r, InfoXfrm::IfId(if_id)),
    {
        self.append_info_data(InfoXfrm::IfId(if_id))
    }

    /// This is equivalent to the `dev PHYS_DEV` in `ip link add name NAME type xfrm dev PHYS_DEV`, by interface index.
    pub fn dev(self, iface_index: u32) -> (r: Self)
        ensures
            self.spec_appends(r, InfoXfrm::Link(iface_index)),
    {
        self.append_info_data(InfoXfrm::Link(iface_index))
    }
}

} // verus!
