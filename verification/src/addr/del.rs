//! Deleting an address, as `ip address del` does.

use vstd::prelude::*;
use crate::handle::Handle;
use crate::packet_route::address::AddressMessage;
use crate::packet_route::message::RouteNetlinkMessage;
use crate::proto::{NetlinkRequest, NLM_F_ACK, NLM_F_REQUEST};

verus! {

/// A request to delete an address. This is equivalent to the
/// `ip address del` command.
pub struct AddressDelRequest {
    pub handle: Handle,
    pub message: AddressMessage,
}

impl AddressDelRequest {
    pub fn new(handle: Handle, message: AddressMessage) -> (r: Self)
        ensures
            r.message == message,
    {
        AddressDelRequest { handle, message }
    }

    /// The wire request this operation sends: a `DelAddress` message with
    /// REQUEST|ACK — deletion has no create-or-fail semantics.
    pub fn into_request(self) -> (r: NetlinkRequest)
        ensures
            r.message == RouteNetlinkMessage::DelAddress(self.message),
            r.flags == NLM_F_REQUEST | NLM_F_ACK,
    {
        NetlinkRequest {
            message: RouteNetlinkMessage::DelAddress(self.message),
            flags: NLM_F_REQUEST | NLM_F_ACK,
        }
    }
}

} // verus!
