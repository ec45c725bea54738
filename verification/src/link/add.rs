//! Creating a new link, as `ip link add` does.

use vstd::prelude::*;
use crate::handle::Handle;
use crate::packet_route::link::LinkMessage;
use crate::packet_route::message::RouteNetlinkMessage;
use crate::proto::{
    NetlinkRequest, NLM_F_ACK, NLM_F_CREATE, NLM_F_EXCL, NLM_F_REPLACE, NLM_F_REQUEST,
};

verus! {

/// A request to create a new link. This is equivalent to the
/// `ip link add` command. Custom requests can be made by building the
/// message with [`crate::LinkMessageBuilder`].
pub struct LinkAddRequest {
    pub handle: Handle,
    pub message: LinkMessage,
    pub flags: u16,
}

impl LinkAddRequest {
    pub fn new(handle: Handle, message: LinkMessage) -> (r: Self)
        ensures
            r.message == message,
            r.flags == NLM_F_REQUEST | NLM_F_ACK | NLM_F_CREATE | NLM_F_EXCL,
    {
        LinkAddRequest { handle, message, flags: NLM_F_REQUEST | NLM_F_ACK | NLM_F_CREATE
            | NLM_F_EXCL }
    }

    /// Replace an existing matching link instead of failing on it: the
    /// EXCL bit gives way to REPLACE.
    pub fn replace(self) -> (r: Self)
        ensures
            r.message == self.message,
            r.flags == (self.flags & !NLM_F_EXCL) | NLM_F_REPLACE,
    {
        let mut ret = self;
        ret.flags = (ret.flags & !NLM_F_EXCL) | NLM_F_REPLACE;
        ret
    }

    /// Set arbitrary header flags.
    pub fn set_flags(self, flags: u16) -> (r: Self)
        ensures
            r.message == self.message,
            r.flags == flags,
    {
        let mut ret = self;
        ret.flags = flags;
        ret
    }

    /// The wire request this operation sends: a `NewLink` message with
    /// the accumulated flags.
    pub fn into_request(self) -> (r: NetlinkRequest)
        ensures
            r.message == RouteNetlinkMessage::NewLink(self.message),
            r.flags == self.flags,
    {
        NetlinkRequest { message: RouteNetlinkMessage::NewLink(self.message), flags: self.flags }
    }
}

} // verus!
