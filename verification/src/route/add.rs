//! Creating a new route, as `ip route add` does.

use vstd::prelude::*;
use core::marker::PhantomData;
use crate::handle::Handle;
use crate::ip::IpAddr;
use crate::packet_route::message::RouteNetlinkMessage;
use crate::packet_route::route::RouteMessage;
use crate::proto::{
    NetlinkRequest, NLM_F_ACK, NLM_F_CREATE, NLM_F_EXCL, NLM_F_REPLACE, NLM_F_REQUEST,
};

verus! {

/// A request to create a new route. This is equivalent to the
/// `ip route add` command.
pub struct RouteAddRequest<T = IpAddr> {
    pub handle: Handle,
    pub message: RouteMessage,
    pub replace: bool,
    pub _phantom: PhantomData<T>,
}

impl<T> RouteAddRequest<T> {
    pub fn new(handle: Handle, message: RouteMessage) -> (r: Self)
        ensures
            r.message == message,
            !r.replace,
    {
        RouteAddRequest { handle, message, replace: false, _phantom: PhantomData }
    }

    /// Replace an existing matching route instead of failing on it.
    pub fn replace(self) -> (r: Self)
        ensures
            r.message == self.message,
            r.replace,
    {
        let mut ret = self;
        ret.replace = true;
        ret
    }

    /// The wire request this operation sends: a `NewRoute` message with
    /// REQUEST|ACK|CREATE and either EXCL or REPLACE.
    pub fn into_request(self) -> (r: NetlinkRequest)
        ensures
            r.message == RouteNetlinkMessage::NewRoute(self.message),
            r.flags == NLM_F_REQUEST | NLM_F_ACK | (if self.replace {
                NLM_F_REPLACE
            } else {
                NLM_F_EXCL
            }) | NLM_F_CREATE,
    {
        let replace: u16 = if self.replace {
            NLM_F_REPLACE
        } else {
            NLM_F_EXCL
        };
        NetlinkRequest {
            message: RouteNetlinkMessage::NewRoute(self.message),
            flags: NLM_F_REQUEST | NLM_F_ACK | replace | NLM_F_CREATE,
        }
    }
}

} // verus!
