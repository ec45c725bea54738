//! Changing attributes of an existing link, as `ip link set` does.

use vstd::prelude::*;
use crate::handle::Handle;
use crate::packet_route::link::LinkMessage;
use crate::packet_route::message::RouteNetlinkMessage;
use crate::proto::{NetlinkRequest, NLM_F_ACK, NLM_F_CREATE, NLM_F_EXCL, NLM_F_REQUEST};

verus! {

/// A request to change an existing link.
pub struct LinkSetRequest {
    pub handle: Handle,
    pub message: LinkMessage,
}

impl LinkSetRequest {
    pub fn new(handle: Handle, message: LinkMessage) -> (r: Self)
        ensures
            r.message == message,
    {
        LinkSetRequest { handle, message }
    }

    /// The wire request this operation sends: a `SetLink` message. The
    /// EXCL and CREATE bits ride along for wire compatibility with
    /// long-observed behaviour, though a pure attribute change does not
    /// need them.
    pub fn into_request(self) -> (r: NetlinkRequest)
        ensures
            r.message == RouteNetlinkMessage::SetLink(self.message),
            r.flags == NLM_F_REQUEST | NLM_F_ACK | NLM_F_EXCL | NLM_F_CREATE,
    {
        NetlinkRequest {
            message: RouteNetlinkMessage::SetLink(self.message),
            flags: NLM_F_REQUEST | NLM_F_ACK | NLM_F_EXCL | NLM_F_CREATE,
        }
    }
}

} // verus!
