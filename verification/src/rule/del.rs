//! Deleting a policy routing rule, as `ip rule del` does.

use vstd::prelude::*;
use crate::handle::Handle;
use crate::packet_route::message::RouteNetlinkMessage;
use crate::packet_route::rule::RuleMessage;
use crate::proto::{NetlinkRequest, NLM_F_ACK, NLM_F_REQUEST};

verus! {

/// A request to delete the rule represented by the given message.
pub struct RuleDelRequest {
    pub handle: Handle,
    pub message: RuleMessage,
}

impl RuleDelRequest {
    pub fn new(handle: Handle, message: RuleMessage) -> (r: Self)
        ensures
            r.message == message,
    {
        RuleDelRequest { handle, message }
    }

    /// The wire request this operation sends: a `DelRule` message with
    /// REQUEST|ACK.
    pub fn into_request(self) -> (r: NetlinkRequest)
        ensures
            r.message == RouteNetlinkMessage::DelRule(self.message),
            r.flags == NLM_F_REQUEST | NLM_F_ACK,
    {
        NetlinkRequest {
            message: RouteNetlinkMessage::DelRule(self.message),
            flags: NLM_F_REQUEST | NLM_F_ACK,
        }
    }
}

} // verus!
