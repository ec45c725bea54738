//! MACsec (IEEE 802.1AE) interfaces.

use vstd::prelude::*;
use crate::link::builder::{spec_is_name_attribute, LinkMessageBuilder};
use crate::packet_route::link::{
    DefaultNla, InfoData, InfoKind, InfoMacSec, LinkAttribute, LinkHeader, MacSecCipherId,
    MacSecOffload, MacSecValidate,
};

verus! {

/// Represents a MACsec interface.
#[derive(Debug)]
pub struct LinkMacSec;

impl LinkMacSec {
    /// Equal to `LinkMessageBuilder::<LinkMacSec>::new(name).link(..)`.
    pub fn new(name: &str, base_iface_index: u32) -> (r: LinkMessageBuilder<LinkMacSec>)
        ensures
            r.header == LinkHeader::spec_default(),
            r.info_kind == Some(InfoKind::MacSec),
            r.info_data is None,
            r.port_kind is None,
            r.port_data is None,
            r.extra_attributes@.len() == 2,
            spec_is_name_attribute(r.extra_attributes@[0], name@),
            r.extra_attributes@[1] == LinkAttribute::Link(base_iface_index),
    {
        LinkMessageBuilder::<LinkMacSec>::new(name).link(base_iface_index)
    }
}

impl LinkMessageBuilder<LinkMacSec> {
    /// Create a [`LinkMessageBuilder`] for a MACsec interface.
    pub fn new(name: &str) -> (r: Self)
        ensures
            r.header == LinkHeader::spec_default(),
            r.info_kind == Some(InfoKind::MacSec),
            r.info_data is None,
            r.port_kind is None,
            r.port_data is None,
            r.extra_attributes@.len() == 1,
            spec_is_name_attribute(r.extra_attributes@[0], name@),
    {
        let text = String::from_str(name);
        LinkMessageBuilder::<LinkMacSec>::new_with_info_kind(InfoKind::MacSec).name(text)
    }
    /// The result of appending one attribute to the builder's MACsec
    /// data list: a missing list is created, a list of another kind is
    /// left alone.
    pub open spec fn spec_appends(self, r: Self, info: InfoMacSec) -> bool {
        &&& r.spec_same_but_info_data(self)
        &&& (self.info_data is None ==> (r.info_data matches Some(InfoData::MacSec(v)) && v@
            == seq![info]))
        &&& (self.info_data matches Some(InfoData::MacSec(v0)) ==> (r.info_data matches Some(
            InfoData::MacSec(v),
        ) && v@ == v0@.push(info)))
        &&& (!(self.info_data is None || self.info_data matches Some(InfoData::MacSec(_)))
            ==> r.info_data == self.info_data)
    }

    /// Append one attribute to the MACsec data list.
    pub fn append_info_data(self, info: InfoMacSec) -> (r: Self)
        ensures
            self.spec_appends(r, info),
    {
        let mut ret = self;
        ret.info_data = match ret.info_data {
            None => {
                let mut infos: Vec<InfoMacSec> = Vec::new();
                infos.push(info);
                proof {
                    assert(infos@ =~= seq![info]);
                }
                Some(InfoData::MacSec(infos))
            },
            Some(InfoData::MacSec(mut infos)) => {
                infos.push(info);
                Some(InfoData::MacSec(infos))
            },
            other => other,
        };
        ret
    }

    /// Set the secure channel identifier.
    pub fn sci(self, sci: u64) -> (r: Self)
        ensures
            self.spec_appends(r, InfoMacSec::Sci(sci)),
    {
        self.append_info_data(InfoMacSec::Sci(sci))
    }

    /// Set the port component of the SCI.
    pub fn port(self, port: u16) -> (r: Self)
        ensures
            self.spec_appends(r, InfoMacSec::Port(port)),
    {
        self.append_info_data(InfoMacSec::Port(port))
    }

    /// Set the length of the integrity check value.
    pub fn icv_len(self, icv_len: u8) -> (r: Self)
        ensures
            self.spec_appends(r, InfoMacSec::IcvLen(icv_len)),
    {
        self.append_info_data(InfoMacSec::IcvLen(icv_len))
    }

    /// Set the cipher suite.
    pub fn cipher_suite(self, cipher_suite: MacSecCipherId) -> (r: Self)
        ensures
            self.spec_appends(r, InfoMacSec::CipherSuite(cipher_suite)),
    {
        self.append_info_data(InfoMacSec::CipherSuite(cipher_suite))
    }

    /// Set the replay protection window size.
    pub fn window(self, window: u32) -> (r: Self)
        ensures
            self.spec_appends(r, InfoMacSec::Window(window)),
    {
        self.append_info_data(InfoMacSec::Window(window))
    }

    /// Set the active secure association for transmission.
    pub fn encoding_sa(self, encoding_sa: u8) -> (r: Self)
        ensures
            self.spec_appends(r, InfoMacSec::EncodingSa(encoding_sa)),
    {
        self.append_info_data(InfoMacSec::EncodingSa(encoding_sa))
    }

    /// Set the validation mode.
    pub fn validation(self, validation: MacSecValidate) -> (r: Self)
        ensures
            self.spec_appends(r, InfoMacSec::Validation(validation)),
    {
        self.append_info_data(InfoMacSec::Validation(validation))
    }

    /// Set the offload mode.
    pub fn offload(self, offload: MacSecOffload) -> (r: Self)
        ensures
            self.spec_appends(r, InfoMacSec::Offload(offload)),
    {
        self.append_info_data(InfoMacSec::Offload(offload))
    }

    /// Append an attribute this library does not type further.
    pub fn other(self, other: DefaultNla) -> (r: Self)
        ensures
            self.spec_appends(r, InfoMacSec::Other(other)),
    {
        self.append_info_data(InfoMacSec::Other(other))
    }

    /// Enable or disable encryption. The wire attribute carries it as one byte.
    pub fn encrypt(self, encrypt: bool) -> (r: Self)
        ensures
            self.spec_appends(
                r,
                InfoMacSec::Encrypt(if encrypt {
                    1u8
                } else {
                    0u8
                }),
            ),
    {
        self.append_info_data(InfoMacSec::Encrypt(if encrypt { 1 } else { 0 }))
    }

    /// Enable or disable frame protection. The wire attribute carries it as one byte.
    pub fn protect(self, protect: bool) -> (r: Self)
        ensures
            self.spec_appends(
                r,
                InfoMacSec::Protect(if protect {
                    1u8
                } else {
                    0u8
                }),
            ),
    {
        self.append_info_data(InfoMacSec::Protect(if protect { 1 } else { 0 }))
    }

    /// Include the SCI in transmitted frames. The wire attribute carries it as one byte.
    pub fn inc_sci(self, inc_sci: bool) -> (r: Self)
        ensures
            self.spec_appends(
                r,
                InfoMacSec::IncSci(if inc_sci {
                    1u8
                } else {
                    0u8
                }),
            ),
    {
        self.append_info_data(InfoMacSec::IncSci(if inc_sci { 1 } else { 0 }))
    }

    /// Set the end-station bit. The wire attribute carries it as one byte.
    pub fn es(self, es: bool) -> (r: Self)
        ensures
            self.spec_appends(
                r,
                InfoMacSec::Es(if es {
                    1u8
                } else {
                    0u8
                }),
            ),
    {
        self.append_info_data(InfoMacSec::Es(if es { 1 } else { 0 }))
    }

    /// Set the single-copy-broadcast bit. The wire attribute carries it as one byte.
    pub fn scb(self, scb: bool) -> (r: Self)
        ensures
            self.spec_appends(
                r,
                InfoMacSec::Scb(if scb {
                    1u8
                } else {
                    0u8
                }),
            ),
    {
        self.append_info_data(InfoMacSec::Scb(if scb { 1 } else { 0 }))
    }

    /// Enable or disable replay protection. The wire attribute carries it as one byte.
    pub fn replay_protect(self, replay_protect: bool) -> (r: Self)
        ensures
            self.spec_appends(
                r,
                InfoMacSec::ReplayProtect(if replay_protect {
                    1u8
                } else {
                    0u8
                }),
            ),
    {
        self.append_info_data(InfoMacSec::ReplayProtect(if replay_protect { 1 } else { 0 }))
    }
}

} // verus!
