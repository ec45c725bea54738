//! Deleting a nexthop object, as `ip nexthop del` does.

use vstd::prelude::*;
use crate::handle::Handle;
use crate::packet_route::message::RouteNetlinkMessage;
use crate::packet_route::nexthop::{NexthopAttribute, NexthopHeader, NexthopMessage};
use crate::proto::{NetlinkRequest, NLM_F_ACK, NLM_F_REQUEST};

verus! {

/// A request to delete the nexthop with a given id.
pub struct NexthopDelRequest {
    pub handle: Handle,
    pub message: NexthopMessage,
}

impl NexthopDelRequest {
    pub fn new(handle: Handle, id: u32) -> (r: Self)
        ensures
            r.message.header == NexthopHeader::spec_default(),
            r.message.nlas@ == seq![NexthopAttribute::Id(id)],
    {
        let mut message = NexthopMessage::new();
        message.nlas.push(NexthopAttribute::Id(id));
        proof {
            assert(message.nlas@ =~= seq![NexthopAttribute::Id(id)]);
        }
        NexthopDelRequest { handle, message }
    }

    /// The wire request this operation sends: a `DelNexthop` message
    /// with REQUEST|ACK.
    pub fn into_request(self) -> (r: NetlinkRequest)
        ensures
            r.message == RouteNetlinkMessage::DelNexthop(self.message),
            r.flags == NLM_F_REQUEST | NLM_F_ACK,
    {
        NetlinkRequest {
            message: RouteNetlinkMessage::DelNexthop(self.message),
            flags: NLM_F_REQUEST | NLM_F_ACK,
        }
    }
}

} // verus!
