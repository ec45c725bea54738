//! Creating a standalone traffic-control action.

use vstd::prelude::*;
use crate::handle::Handle;
use crate::packet_route::message::RouteNetlinkMessage;
use crate::packet_route::tc::{TcAction, TcActionMessage, TcActionMessageAttribute};
use crate::proto::{NetlinkRequest, NLM_F_ACK, NLM_F_EXCL, NLM_F_REQUEST};

verus! {

/// A request to add a new traffic-control action.
pub struct TrafficActionNewRequest {
    pub handle: Handle,
    pub message: TcActionMessage,
}

impl TrafficActionNewRequest {
    pub fn new(handle: Handle) -> (r: Self)
        ensures
            r.message.attributes@ == Seq::<TcActionMessageAttribute>::empty(),
    {
        TrafficActionNewRequest { handle, message: TcActionMessage::new() }
    }

    /// Specify the action to add.
    pub fn action(self, action: TcAction) -> (r: Self)
        ensures
            r.message.header == self.message.header,
            r.message.attributes@.len() == self.message.attributes@.len() + 1,
            r.message.attributes@.take(self.message.attributes@.len() as int)
                == self.message.attributes@,
            r.message.attributes@.last() matches TcActionMessageAttribute::Actions(actions)
                && actions@ == seq![action],
    {
        let ghost expected = action;
        let mut ret = self;
        let mut actions: Vec<TcAction> = Vec::new();
        actions.push(action);
        proof {
            assert(actions@ =~= seq![expected]);
        }
        ret.message.attributes.push(TcActionMessageAttribute::Actions(actions));
        proof {
            assert(ret.message.attributes@.take(self.message.attributes@.len() as int)
                =~= self.message.attributes@);
        }
        ret
    }

    /// The wire request this operation sends: a `NewTrafficAction`
    /// message with REQUEST|ACK|EXCL.
    pub fn into_request(self) -> (r: NetlinkRequest)
        ensures
            r.message == RouteNetlinkMessage::NewTrafficAction(self.message),
            r.flags == NLM_F_REQUEST | NLM_F_ACK | NLM_F_EXCL,
    {
        NetlinkRequest {
            message: RouteNetlinkMessage::NewTrafficAction(self.message),
            flags: NLM_F_REQUEST | NLM_F_ACK | NLM_F_EXCL,
        }
    }
}

} // verus!
