//! The link sub-handle: entry points for link operations.

use vstd::prelude::*;
use crate::handle::Handle;
use crate::link::add::LinkAddRequest;
use crate::link::del::LinkDelRequest;
use crate::link::get::LinkGetRequest;
use crate::link::property_add::LinkNewPropRequest;
use crate::link::property_del::LinkDelPropRequest;
use crate::link::set::LinkSetRequest;
use crate::packet_route::link::{LinkHeader, LinkMessage};
use crate::proto::{NLM_F_ACK, NLM_F_CREATE, NLM_F_EXCL, NLM_F_REQUEST};

verus! {

pub struct LinkHandle(pub Handle);

impl LinkHandle {
    pub fn new(handle: Handle) -> LinkHandle {
        LinkHandle(handle)
    }

    /// Change an existing link (equivalent to `ip link set`).
    pub fn set(&self, message: LinkMessage) -> (r: LinkSetRequest)
        ensures
            r.message == message,
    {
        LinkSetRequest::new(self.0.clone(), message)
    }

    /// Create a new link (equivalent to `ip link add`).
    pub fn add(&self, message: LinkMessage) -> (r: LinkAddRequest)
        ensures
            r.message == message,
            r.flags == NLM_F_REQUEST | NLM_F_ACK | NLM_F_CREATE | NLM_F_EXCL,
    {
        LinkAddRequest::new(self.0.clone(), message)
    }

    /// Add alternative names to the link with the given index.
    pub fn property_add(&self, index: u32) -> (r: LinkNewPropRequest)
        ensures
            r.message.header == (LinkHeader { index, ..LinkHeader::spec_default() }),
    {
        LinkNewPropRequest::new(self.0.clone(), index)
    }

    /// Remove alternative names from the link with the given index.
    pub fn property_del(&self, index: u32) -> (r: LinkDelPropRequest)
        ensures
            r.message.header == (LinkHeader { index, ..LinkHeader::spec_default() }),
    {
        LinkDelPropRequest::new(self.0.clone(), index)
    }

    /// Delete the link with the given index (equivalent to
    /// `ip link del`).
    pub fn del(&mut self, index: u32) -> (r: LinkDelRequest)
        ensures
            r.message.header == (LinkHeader { index, ..LinkHeader::spec_default() }),
    {
        LinkDelRequest::new(self.0.clone(), index)
    }

    /// Retrieve the list of links (equivalent to `ip link show`).
    pub fn get(&mut self) -> (r: LinkGetRequest)
        ensures
            r.message.header == LinkHeader::spec_default(),
            r.dump,
    {
        LinkGetRequest::new(self.0.clone())
    }

    /// Configure bond or bridge port settings. `LinkHandle::set()`
    /// cannot carry them: the kernel wants `RTM_NEWLINK` with
    /// REQUEST|ACK for port configuration. Equal to
    /// `LinkAddRequest::new(..).set_flags(NLM_F_REQUEST | NLM_F_ACK)`.
    pub fn set_port(&self, message: LinkMessage) -> (r: LinkAddRequest)
        ensures
            r.message == message,
            r.flags == NLM_F_REQUEST | NLM_F_ACK,
    {
        LinkAddRequest::new(self.0.clone(), message).set_flags(NLM_F_REQUEST | NLM_F_ACK)
    }
}

} // verus!
