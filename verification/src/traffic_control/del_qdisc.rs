//! Deleting a queue discipline, as `tc qdisc del` does.

use vstd::prelude::*;
use crate::handle::Handle;
use crate::packet_route::message::RouteNetlinkMessage;
use crate::packet_route::tc::{TcHandle, TcMessage};
use crate::proto::{NetlinkRequest, NLM_F_ACK, NLM_F_REQUEST};

verus! {

/// A request to delete a queue discipline.
pub struct QDiscDelRequest {
    pub handle: Handle,
    pub message: TcMessage,
}

impl QDiscDelRequest {
    pub fn new(handle: Handle, message: TcMessage) -> (r: Self)
        ensures
            r.message == message,
    {
        QDiscDelRequest { handle, message }
    }

    /// Set the handle.
    pub fn handle(self, major: u16, minor: u16) -> (r: Self)
        ensures
            r.message.header == (crate::packet_route::tc::TcHeader {
                handle: TcHandle { major, minor },
                ..self.message.header
            }),
            r.message.attributes@ == self.message.attributes@,
    {
        let mut ret = self;
        ret.message.header.handle = TcHandle { major, minor };
        ret
    }

    /// Set the parent to the root.
    pub fn root(self) -> (r: Self)
        ensures
            r.message.header == (crate::packet_route::tc::TcHeader {
                parent: TcHandle { major: 0xffffu16, minor: 0xffffu16 },
                ..self.message.header
            }),
            r.message.attributes@ == self.message.attributes@,
    {
        let mut ret = self;
        ret.message.header.parent = TcHandle::root();
        ret
    }

    /// Address the ingress pseudo-qdisc.
    pub fn ingress(self) -> (r: Self)
        ensures
            r.message.header == (crate::packet_route::tc::TcHeader {
                parent: TcHandle { major: 0xffffu16, minor: 0xfff1u16 },
                ..self.message.header
            }),
            r.message.attributes@ == self.message.attributes@,
    {
        let mut ret = self;
        ret.message.header.parent = TcHandle::ingress();
        ret
    }

    /// The wire request this operation sends: a `DelQueueDiscipline`
    /// message with REQUEST|ACK.
    pub fn into_request(self) -> (r: NetlinkRequest)
        ensures
            r.message == RouteNetlinkMessage::DelQueueDiscipline(self.message),
            r.flags == NLM_F_REQUEST | NLM_F_ACK,
    {
        NetlinkRequest {
            message: RouteNetlinkMessage::DelQueueDiscipline(self.message),
            flags: NLM_F_REQUEST | NLM_F_ACK,
        }
    }
}

} // verus!
