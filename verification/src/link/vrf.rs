//! VRF (virtual routing and forwarding) interfaces.

use vstd::prelude::*;
use crate::link::builder::{spec_is_name_attribute, LinkMessageBuilder};
use crate::packet_route::link::{InfoData, InfoKind, InfoVrf, LinkHeader};

verus! {

/// Represents a VRF interface.
#[derive(Debug)]
pub struct LinkVrf;

impl LinkVrf {
    /// Equal to `LinkMessageBuilder::<LinkVrf>::new(name).table_id(table_id)`.
    pub fn new(name: &str, table_id: u32) -> (r: LinkMessageBuilder<LinkVrf>)
        ensures
            r.header == LinkHeader::spec_default(),
            r.info_kind == Some(InfoKind::Vrf),
            r.port_kind is None,
            r.port_data is None,
            r.extra_attributes@.len() == 1,
            spec_is_name_attribute(r.extra_attributes@[0], name@),
            r.info_data matches Some(InfoData::Vrf(v)) && v@ == seq![InfoVrf::TableId(table_id)],
    {
        LinkMessageBuilder::<LinkVrf>::new(name).table_id(table_id)
    }
}

impl LinkMessageBuilder<LinkVrf> {
    /// Create a [`LinkMessageBuilder`] for this link kind.
    pub fn new(name: &str) -> (r: Self)
        ensures
            r.header == LinkHeader::spec_default(),
            r.info_kind == Some(InfoKind::Vrf),
            r.info_data is None,
            r.port_kind is None,
            r.port_data is None,
            r.extra_attributes@.len() == 1,
            spec_is_name_attribute(r.extra_attributes@[0], name@),
    {
        let text = String::from_str(name);
        LinkMessageBuilder::<LinkVrf>::new_with_info_kind(InfoKind::Vrf).name(text)
    }
    /// The result of appending one VRF attribute to the builder's
    /// VRF data list: a missing list is created, a list of another
    /// kind is left alone.
    pub open spec fn spec_appends(self, r: Self, info: InfoVrf) -> bool {
        &&& r.spec_same_but_info_data(self)
        &&& (self.info_data is None ==> (r.info_data matches Some(InfoData::Vrf(v)) && v@
            == seq![info]))
        &&& (self.info_data matches Some(InfoData::Vrf(v0)) ==> (r.info_data matches Some(
            InfoData::Vrf(v),
        ) && v@ == v0@.push(info)))
        &&& (!(self.info_data is None || self.info_data matches Some(InfoData::Vrf(_)))
            ==> r.info_data == self.info_data)
    }

    /// Append one VRF attribute to the VRF data list.
    pub fn append_info_data(self, info: InfoVrf) -> (r: Self)
        ensures
            self.spec_appends(r, info),
    {
        let mut ret = self;
        ret.info_data = match ret.info_data {
            None => {
                let mut infos: Vec<InfoVrf> = Vec::new();
                infos.push(info);
                proof {
                    assert(infos@ =~= seq![info]);
                }
                Some(InfoData::Vrf(infos))
            },
            Some(InfoData::Vrf(mut infos)) => {
                infos.push(info);
                Some(InfoData::Vrf(infos))
            },
            other => other,
        };
        ret
    }

    /// Set the VRF routing table id.
    pub fn table_id(self, table_id: u32) -> (r: Self)
        ensures
            self.spec_appends(r, InfoVrf::TableId(table_id)),
    {
        self.append_info_data(InfoVrf::TableId(table_id))
    }
}

} // verus!
