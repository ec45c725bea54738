//! Netkit virtual interfaces, used for container networking and BPF
//! programs.

use vstd::prelude::*;
use crate::link::builder::{spec_is_name_attribute, LinkMessageBuilder, LinkUnspec};
use crate::packet_route::link::{
    InfoData, InfoKind, InfoNetkit, LinkHeader, LinkMessage, NetkitMode, NetkitPolicy,
    NetkitScrub,
};

verus! {

/// The netkit attribute that names a peer interface: a nested link
/// message whose single attribute is the peer's name.
pub open spec fn spec_is_peer_entry(entry: InfoNetkit, peer: Seq<char>) -> bool {
    &&& entry matches InfoNetkit::Peer(m)
    &&& m.header == LinkHeader::spec_default()
    &&& m.attributes@.len() == 1
    &&& spec_is_name_attribute(m.attributes@[0], peer)
}

/// Represents a netkit pair.
#[derive(Debug)]
pub struct LinkNetkit;

impl LinkNetkit {
    /// Equal to `LinkMessageBuilder::<LinkNetkit>::new(name, peer, mode)`.
    pub fn new(name: &str, peer: &str, mode: NetkitMode) -> (r: LinkMessageBuilder<LinkNetkit>)
        ensures
            r.header == LinkHeader::spec_default(),
            r.info_kind == Some(InfoKind::Netkit),
            r.port_kind is None,
            r.port_data is None,
            r.extra_attributes@.len() == 1,
            spec_is_name_attribute(r.extra_attributes@[0], name@),
            r.info_data matches Some(InfoData::Netkit(v)) && v@.len() == 2 && v@[0]
                == InfoNetkit::Mode(mode) && spec_is_peer_entry(v@[1], peer@),
    {
        LinkMessageBuilder::<LinkNetkit>::new(name, peer, mode)
    }
}

impl LinkMessageBuilder<LinkNetkit> {
    /// Create a [`LinkMessageBuilder`] for a netkit pair.
    pub fn new(name: &str, peer: &str, mode: NetkitMode) -> (r: Self)
        ensures
            r.header == LinkHeader::spec_default(),
            r.info_kind == Some(InfoKind::Netkit),
            r.port_kind is None,
            r.port_data is None,
            r.extra_attributes@.len() == 1,
            spec_is_name_attribute(r.extra_attributes@[0], name@),
            r.info_data matches Some(InfoData::Netkit(v)) && v@.len() == 2 && v@[0]
                == InfoNetkit::Mode(mode) && spec_is_peer_entry(v@[1], peer@),
    {
        let text = String::from_str(name);
        let r = LinkMessageBuilder::<LinkNetkit>::new_with_info_kind(InfoKind::Netkit).name(
            text,
        ).mode(mode).peer(peer);
        proof {
            let entries = r.info_data.unwrap()->Netkit_0@;
            assert(entries[0] == entries.take(1)[0]);
        }
        r
    }

    /// Set the peer interface name.
    pub fn peer(self, peer: &str) -> (r: Self)
        ensures
            r.spec_same_but_info_data(self),
            self.info_data is None ==> (r.info_data matches Some(InfoData::Netkit(v)) && v@.len()
                == 1 && spec_is_peer_entry(v@[0], peer@)),
            self.info_data matches Some(InfoData::Netkit(v0)) ==> (r.info_data matches Some(
                InfoData::Netkit(v),
            ) && v@.len() == v0@.len() + 1 && v@.take(v0@.len() as int) == v0@
                && spec_is_peer_entry(v@.last(), peer@)),
            (!(self.info_data is None || self.info_data matches Some(InfoData::Netkit(_)))
                ==> r.info_data == self.info_data),
    {
        let peer_name = String::from_str(peer);
        let peer_msg: LinkMessage = LinkMessageBuilder::<LinkUnspec>::default().name(
            peer_name,
        ).build();
        let r = self.append_info_data(InfoNetkit::Peer(peer_msg));
        proof {
            if self.info_data is Some && self.info_data.unwrap() is Netkit {
                let entries = self.info_data.unwrap()->Netkit_0@;
                assert(r.info_data.unwrap()->Netkit_0@.take(entries.len() as int) =~= entries);
            }
        }
        r
    }
    /// The result of appending one attribute to the builder's netkit
    /// data list: a missing list is created, a list of another kind is
    /// left alone.
    pub open spec fn spec_appends(self, r: Self, info: InfoNetkit) -> bool {
        &&& r.spec_same_but_info_data(self)
        &&& (self.info_data is None ==> (r.info_data matches Some(InfoData::Netkit(v)) && v@
            == seq![info]))
        &&& (self.info_data matches Some(InfoData::Netkit(v0)) ==> (r.info_data matches Some(
            InfoData::Netkit(v),
        ) && v@ == v0@.push(info)))
        &&& (!(self.info_data is None || self.info_data matches Some(InfoData::Netkit(_)))
            ==> r.info_data == self.info_data)
    }

    /// Append one attribute to the netkit data list.
    pub fn append_info_data(self, info: InfoNetkit) -> (r: Self)
        ensures
            self.spec_appends(r, info),
    {
        let mut ret = self;
        ret.info_data = match ret.info_data {
            None => {
                let mut infos: Vec<InfoNetkit> = Vec::new();
                infos.push(info);
                proof {
                    assert(infos@ =~= seq![info]);
                }
                Some(InfoData::Netkit(infos))
            },
            Some(InfoData::Netkit(mut infos)) => {
                infos.push(info);
                Some(InfoData::Netkit(infos))
            },
            other => other,
        };
        ret
    }

    /// Set the netkit mode (L2 or L3).
    pub fn mode(self, mode: NetkitMode) -> (r: Self)
        ensures
            self.spec_appends(r, InfoNetkit::Mode(mode)),
    {
        self.append_info_data(InfoNetkit::Mode(mode))
    }

    /// Set the primary interface flag.
    pub fn primary(self, primary: bool) -> (r: Self)
        ensures
            self.spec_appends(r, InfoNetkit::Primary(primary)),
    {
        self.append_info_data(InfoNetkit::Primary(primary))
    }

    /// Set the policy of the primary interface.
    pub fn policy(self, policy: NetkitPolicy) -> (r: Self)
        ensures
            self.spec_appends(r, InfoNetkit::Policy(policy)),
    {
        self.append_info_data(InfoNetkit::Policy(policy))
    }

    /// Set the policy of the peer interface.
    pub fn peer_policy(self, policy: NetkitPolicy) -> (r: Self)
        ensures
            self.spec_appends(r, InfoNetkit::PeerPolicy(policy)),
    {
        self.append_info_data(InfoNetkit::PeerPolicy(policy))
    }

    /// Set the scrub settings of the primary interface.
    pub fn scrub(self, scrub: NetkitScrub) -> (r: Self)
        ensures
            self.spec_appends(r, InfoNetkit::Scrub(scrub)),
    {
        self.append_info_data(InfoNetkit::Scrub(scrub))
    }

    /// Set the scrub settings of the peer interface.
    pub fn peer_scrub(self, scrub: NetkitScrub) -> (r: Self)
        ensures
            self.spec_appends(r, InfoNetkit::PeerScrub(scrub)),
    {
        self.append_info_data(InfoNetkit::PeerScrub(scrub))
    }

    /// Set the desired headroom.
    pub fn headroom(self, headroom: u16) -> (r: Self)
        ensures
            self.spec_appends(r, InfoNetkit::Headroom(headroom)),
    {
        self.append_info_data(InfoNetkit::Headroom(headroom))
    }

    /// Set the desired tailroom.
    pub fn tailroom(self, tailroom: u16) -> (r: Self)
        ensures
            self.spec_appends(r, InfoNetkit::Tailroom(tailroom)),
    {
        self.append_info_data(InfoNetkit::Tailroom(tailroom))
    }
}

} // verus!
