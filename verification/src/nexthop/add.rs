//! Creating a nexthop object, as `ip nexthop add` does.

use vstd::prelude::*;
use crate::handle::Handle;
use crate::packet_route::message::RouteNetlinkMessage;
use crate::packet_route::nexthop::NexthopMessage;
use crate::proto::{
    NetlinkRequest, NLM_F_ACK, NLM_F_CREATE, NLM_F_EXCL, NLM_F_REPLACE, NLM_F_REQUEST,
};

verus! {

/// A request to create a new nexthop. This is equivalent to the
/// `ip nexthop add` command.
pub struct NexthopAddRequest {
    pub handle: Handle,
    pub message: NexthopMessage,
    pub replace: bool,
}

impl NexthopAddRequest {
    pub fn new(handle: Handle, message: NexthopMessage) -> (r: Self)
        ensures
            r.message == message,
            !r.replace,
    {
        NexthopAddRequest { handle, message, replace: false }
    }

    /// Replace an existing matching nexthop instead of failing on it.
    pub fn replace(self) -> (r: Self)
        ensures
            r.message == self.message,
            r.replace,
    {
        NexthopAddRequest { replace: true, ..self }
    }

    /// The wire request this operation sends: a `NewNexthop` message
    /// with REQUEST|ACK|CREATE and either EXCL or REPLACE.
    pub fn into_request(self) -> (r: NetlinkRequest)
        ensures
            r.message == RouteNetlinkMessage::NewNexthop(self.message),
            r.flags == NLM_F_REQUEST | NLM_F_ACK | (if self.replace {
                NLM_F_REPLACE
            } else {
                NLM_F_EXCL
            }) | NLM_F_CREATE,
    {
        let replace: u16 = if self.replace {
            NLM_F_REPLACE
        } else {
            NLM_F_EXCL
        };
        NetlinkRequest {
            message: RouteNetlinkMessage::NewNexthop(self.message),
            flags: NLM_F_REQUEST | NLM_F_ACK | replace | NLM_F_CREATE,
        }
    }
}

} // verus!
