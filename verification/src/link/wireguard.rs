//! WireGuard interfaces.

use vstd::prelude::*;
use crate::link::builder::{spec_is_name_attribute, LinkMessageBuilder};
use crate::packet_route::link::{InfoKind, LinkHeader};

verus! {

/// Represents a WireGuard interface.
#[derive(Debug)]
pub struct LinkWireguard;

impl LinkWireguard {
    /// Equal to `LinkMessageBuilder::<LinkWireguard>::new(name)`.
    pub fn new(name: &str) -> (r: LinkMessageBuilder<LinkWireguard>)
        ensures
            r.header == LinkHeader::spec_default(),
            r.info_kind == Some(InfoKind::Wireguard),
            r.info_data is None,
            r.port_kind is None,
            r.port_data is None,
            r.extra_attributes@.len() == 1,
            spec_is_name_attribute(r.extra_attributes@[0], name@),
    {
        LinkMessageBuilder::<LinkWireguard>::new(name)
    }
}

impl LinkMessageBuilder<LinkWireguard> {
    /// Create a [`LinkMessageBuilder`] for this link kind.
    pub fn new(name: &str) -> (r: Self)
        ensures
            r.header == LinkHeader::spec_default(),
            r.info_kind == Some(InfoKind::Wireguard),
            r.info_data is None,
            r.port_kind is None,
            r.port_data is None,
            r.extra_attributes@.len() == 1,
            spec_is_name_attribute(r.extra_attributes@[0], name@),
    {
        let text = String::from_str(name);
        LinkMessageBuilder::<LinkWireguard>::new_with_info_kind(InfoKind::Wireguard).name(text)
    }
}

} // verus!
