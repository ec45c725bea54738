//! Bond port (member interface) configuration.

use vstd::prelude::*;
use crate::link::builder::LinkMessageBuilder;
use crate::packet_route::link::{InfoBondPort, InfoPortData, InfoPortKind, LinkHeader};

verus! {

/// Represents the configuration of one port of a bond.
#[derive(Debug)]
pub struct LinkBondPort;

impl LinkBondPort {
    /// Equal to `LinkMessageBuilder::<LinkBondPort>::default().index(..)` with
    /// the bond port kind set.
    pub fn new(port_index: u32) -> (r: LinkMessageBuilder<LinkBondPort>)
        ensures
            r.header == (LinkHeader { index: port_index, ..LinkHeader::spec_default() }),
            r.info_kind is None,
            r.info_data is None,
            r.port_kind == Some(InfoPortKind::Bond),
            r.port_data is None,
            r.extra_attributes@.len() == 0,
    {
        LinkMessageBuilder::<LinkBondPort>::default().index(port_index).set_port_kind(
            InfoPortKind::Bond,
        )
    }
}

impl LinkMessageBuilder<LinkBondPort> {
    /// The result of appending one attribute to the builder's bond
    /// port data list: a missing list is created, a list of another kind
    /// is left alone.
    pub open spec fn spec_appends(self, r: Self, info: InfoBondPort) -> bool {
        &&& r.spec_same_but_port_data(self)
        &&& (self.port_data is None ==> (r.port_data matches Some(InfoPortData::BondPort(v)) && v@
            == seq![info]))
        &&& (self.port_data matches Some(InfoPortData::BondPort(v0)) ==> (r.port_data matches Some(
            InfoPortData::BondPort(v),
        ) && v@ == v0@.push(info)))
        &&& (!(self.port_data is None || self.port_data matches Some(InfoPortData::BondPort(_)))
            ==> r.port_data == self.port_data)
    }

    /// Append one attribute to the bond port data list.
    pub fn append_info_data(self, info: InfoBondPort) -> (r: Self)
        ensures
            self.spec_appends(r, info),
    {
        let mut ret = self;
        ret.port_data = match ret.port_data {
            None => {
                let mut infos: Vec<InfoBondPort> = Vec::new();
                infos.push(info);
                proof {
                    assert(infos@ =~= seq![info]);
                }
                Some(InfoPortData::BondPort(infos))
            },
            Some(InfoPortData::BondPort(mut infos)) => {
                infos.push(info);
                Some(InfoPortData::BondPort(infos))
            },
            other => other,
        };
        ret
    }

    /// Adds the `queue_id` attribute to the bond port. This is equivalent to `ip link set name NAME type bond_slave queue_id QUEUE_ID`.
    pub fn queue_id(self, queue_id: u16) -> (r: Self)
        ensures
            self.spec_appends(r, InfoBondPort::QueueId(queue_id)),
    {
        self.append_info_data(InfoBondPort::QueueId(queue_id))
    }

    /// Adds the `prio` attribute to the bond port. This is equivalent to `ip link set name NAME type bond_slave prio PRIO`.
    pub fn prio(self, prio: i32) -> (r: Self)
        ensures
            self.spec_appends(r, InfoBondPort::Prio(prio)),
    {
        self.append_info_data(InfoBondPort::Prio(prio))
    }
}

} // verus!
