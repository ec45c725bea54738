//! Dummy interfaces.

use vstd::prelude::*;
use crate::link::builder::{spec_is_name_attribute, LinkMessageBuilder};
use crate::packet_route::link::{InfoKind, LinkHeader};

verus! {

/// Represents a dummy interface.
#[derive(Debug)]
pub struct LinkDummy;

impl LinkDummy {
    /// Equal to `LinkMessageBuilder::<LinkDummy>::new(name)`.
    pub fn new(name: &str) -> (r: LinkMessageBuilder<LinkDummy>)
        ensures
            r.header == LinkHeader::spec_default(),
            r.info_kind == Some(InfoKind::Dummy),
            r.info_data is None,
            r.port_kind is None,
            r.port_data is None,
            r.extra_attributes@.len() == 1,
            spec_is_name_attribute(r.extra_attributes@[0], name@),
    {
        LinkMessageBuilder::<LinkDummy>::new(name)
    }
}

impl LinkMessageBuilder<LinkDummy> {
    /// Create a [`LinkMessageBuilder`] for this link kind.
    pub fn new(name: &str) -> (r: Self)
        ensures
            r.header == LinkHeader::spec_default(),
            r.info_kind == Some(InfoKind::Dummy),
            r.info_data is None,
            r.port_kind is None,
            r.port_data is None,
            r.extra_attributes@.len() == 1,
            spec_is_name_attribute(r.extra_attributes@[0], name@),
    {
        let text = String::from_str(name);
        LinkMessageBuilder::<LinkDummy>::new_with_info_kind(InfoKind::Dummy).name(text)
    }
}

} // verus!
