//! Deleting a route, as `ip route del` does.

use vstd::prelude::*;
use crate::handle::Handle;
use crate::packet_route::message::RouteNetlinkMessage;
use crate::packet_route::route::RouteMessage;
use crate::proto::{NetlinkRequest, NLM_F_ACK, NLM_F_REQUEST};

verus! {

/// A request to delete the given route.
pub struct RouteDelRequest {
    pub handle: Handle,
    pub message: RouteMessage,
}

impl RouteDelRequest {
    pub fn new(handle: Handle, message: RouteMessage) -> (r: Self)
        ensures
            r.message == message,
    {
        RouteDelRequest { handle, message }
    }

    /// The wire request this operation sends: a `DelRoute` message with
    /// REQUEST|ACK.
    pub fn into_request(self) -> (r: NetlinkRequest)
        ensures
            r.message == RouteNetlinkMessage::DelRoute(self.message),
            r.flags == NLM_F_REQUEST | NLM_F_ACK,
    {
        NetlinkRequest {
            message: RouteNetlinkMessage::DelRoute(self.message),
            flags: NLM_F_REQUEST | NLM_F_ACK,
        }
    }
}

} // verus!
