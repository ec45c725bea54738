//! Deleting a link, as `ip link del` does.

use vstd::prelude::*;
use crate::handle::Handle;
use crate::packet_route::link::{LinkHeader, LinkMessage};
use crate::packet_route::message::RouteNetlinkMessage;
use crate::proto::{NetlinkRequest, NLM_F_ACK, NLM_F_REQUEST};

verus! {

/// A request to delete the link with a given index.
pub struct LinkDelRequest {
    pub handle: Handle,
    pub message: LinkMessage,
}

impl LinkDelRequest {
    pub fn new(handle: Handle, index: u32) -> (r: Self)
        ensures
            r.message.header == (LinkHeader { index, ..LinkHeader::spec_default() }),
            r.message.attributes@ == Seq::<crate::packet_route::link::LinkAttribute>::empty(),
    {
        let mut message = LinkMessage::new();
        message.header.index = index;
        LinkDelRequest { handle, message }
    }

    /// The wire request this operation sends: a `DelLink` message with
    /// REQUEST|ACK.
    pub fn into_request(self) -> (r: NetlinkRequest)
        ensures
            r.message == RouteNetlinkMessage::DelLink(self.message),
            r.flags == NLM_F_REQUEST | NLM_F_ACK,
    {
        NetlinkRequest {
            message: RouteNetlinkMessage::DelLink(self.message),
            flags: NLM_F_REQUEST | NLM_F_ACK,
        }
    }
}

} // verus!
