//! Virtual ethernet (veth) pairs.

use vstd::prelude::*;
use crate::link::builder::{spec_is_name_attribute, LinkMessageBuilder, LinkUnspec};
use crate::packet_route::link::{InfoData, InfoKind, InfoVeth, LinkHeader, LinkMessage};

verus! {

/// The veth info data that names a peer interface: a nested link message
/// whose single attribute is the peer's name.
pub open spec fn spec_is_peer_data(data: InfoData, peer: Seq<char>) -> bool {
    &&& data matches InfoData::Veth(InfoVeth::Peer(m))
    &&& m.header == LinkHeader::spec_default()
    &&& m.attributes@.len() == 1
    &&& spec_is_name_attribute(m.attributes@[0], peer)
}

/// Represents a virtual ethernet pair.
#[derive(Debug)]
pub struct LinkVeth;

impl LinkVeth {
    /// Equal to `LinkMessageBuilder::<LinkVeth>::new(name, peer)`.
    pub fn new(name: &str, peer: &str) -> (r: LinkMessageBuilder<LinkVeth>)
        ensures
            r.header == LinkHeader::spec_default(),
            r.info_kind == Some(InfoKind::Veth),
            r.port_kind is None,
            r.port_data is None,
            r.extra_attributes@.len() == 1,
            spec_is_name_attribute(r.extra_attributes@[0], name@),
            r.info_data matches Some(data) && spec_is_peer_data(data, peer@),
    {
        LinkMessageBuilder::<LinkVeth>::new(name, peer)
    }
}

impl LinkMessageBuilder<LinkVeth> {
    /// Create a [`LinkMessageBuilder`] for a veth pair.
    pub fn new(name: &str, peer: &str) -> (r: Self)
        ensures
            r.header == LinkHeader::spec_default(),
            r.info_kind == Some(InfoKind::Veth),
            r.port_kind is None,
            r.port_data is None,
            r.extra_attributes@.len() == 1,
            spec_is_name_attribute(r.extra_attributes@[0], name@),
            r.info_data matches Some(data) && spec_is_peer_data(data, peer@),
    {
        let text = String::from_str(name);
        LinkMessageBuilder::<LinkVeth>::new_with_info_kind(InfoKind::Veth).name(text).peer(peer)
    }

    /// Set the peer interface name.
    pub fn peer(self, peer: &str) -> (r: Self)
        ensures
            r.spec_same_but_info_data(self),
            r.info_data matches Some(data) && spec_is_peer_data(data, peer@),
    {
        let peer_name = String::from_str(peer);
        let peer_msg: LinkMessage = LinkMessageBuilder::<LinkUnspec>::default().name(
            peer_name,
        ).build();
        let mut ret = self;
        ret.info_data = Some(InfoData::Veth(InfoVeth::Peer(peer_msg)));
        ret
    }
}

} // verus!
