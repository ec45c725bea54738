//! Deleting a neighbour table entry, as `ip neighbour del` does.

use vstd::prelude::*;
use crate::handle::Handle;
use crate::packet_route::message::RouteNetlinkMessage;
use crate::packet_route::neighbour::NeighbourMessage;
use crate::proto::{NetlinkRequest, NLM_F_ACK, NLM_F_REQUEST};

verus! {

/// A request to delete the neighbour entry represented by the given
/// message.
pub struct NeighbourDelRequest {
    pub handle: Handle,
    pub message: NeighbourMessage,
}

impl NeighbourDelRequest {
    pub fn new(handle: Handle, message: NeighbourMessage) -> (r: Self)
        ensures
            r.message == message,
    {
        NeighbourDelRequest { handle, message }
    }

    /// The wire request this operation sends: a `DelNeighbour` message
    /// with REQUEST|ACK.
    pub fn into_request(self) -> (r: NetlinkRequest)
        ensures
            r.message == RouteNetlinkMessage::DelNeighbour(self.message),
            r.flags == NLM_F_REQUEST | NLM_F_ACK,
    {
        NetlinkRequest {
            message: RouteNetlinkMessage::DelNeighbour(self.message),
            flags: NLM_F_REQUEST | NLM_F_ACK,
        }
    }
}

} // verus!
