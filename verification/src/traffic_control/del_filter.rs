//! Deleting a traffic filter, as `tc filter del` does.

use vstd::prelude::*;
use crate::handle::Handle;
use crate::packet_route::message::RouteNetlinkMessage;
use crate::packet_route::tc::{TcHandle, TcMessage, TC_H_MIN_EGRESS, TC_H_MIN_INGRESS};
use crate::proto::{NetlinkRequest, NLM_F_ACK, NLM_F_REQUEST};

verus! {

/// A request to delete a traffic filter on one interface.
pub struct TrafficFilterDelRequest {
    pub handle: Handle,
    pub message: TcMessage,
    pub flags: u16,
}

impl TrafficFilterDelRequest {
    pub fn new(handle: Handle, ifindex: i32) -> (r: Self)
        ensures
            r.message.header == (crate::packet_route::tc::TcHeader {
                index: ifindex,
                ..crate::packet_route::tc::TcHeader::spec_default()
            }),
            r.message.attributes@ == Seq::<crate::packet_route::tc::TcAttribute>::empty(),
            r.flags == NLM_F_REQUEST | NLM_F_ACK,
    {
        TrafficFilterDelRequest {
            handle,
            message: TcMessage::with_index(ifindex),
            flags: NLM_F_REQUEST | NLM_F_ACK,
        }
    }

    /// Set the parent. The root, ingress and egress variants are
    /// mutually exclusive with this.
    pub fn parent(self, parent: u32) -> (r: Self)
        ensures
            r.message.header == (crate::packet_route::tc::TcHeader {
                parent: TcHandle::spec_from_u32(parent),
                ..self.message.header
            }),
            r.message.attributes@ == self.message.attributes@,
            r.flags == self.flags,
    {
        let mut ret = self;
        ret.message.header.parent = TcHandle::from_u32(parent);
        ret
    }

    /// Set the parent to the root.
    pub fn root(self) -> (r: Self)
        ensures
            r.message.header == (crate::packet_route::tc::TcHeader {
                parent: TcHandle { major: 0xffffu16, minor: 0xffffu16 },
                ..self.message.header
            }),
            r.message.attributes@ == self.message.attributes@,
            r.flags == self.flags,
    {
        let mut ret = self;
        ret.message.header.parent = TcHandle::root();
        ret
    }

    /// Set the parent to ingress.
    pub fn ingress(self) -> (r: Self)
        ensures
            r.message.header == (crate::packet_route::tc::TcHeader {
                parent: TcHandle { major: 0xffffu16, minor: TC_H_MIN_INGRESS },
                ..self.message.header
            }),
            r.message.attributes@ == self.message.attributes@,
            r.flags == self.flags,
    {
        let mut ret = self;
        ret.message.header.parent = TcHandle { major: 0xffff, minor: TC_H_MIN_INGRESS };
        ret
    }

    /// Set the parent to egress.
    pub fn egress(self) -> (r: Self)
        ensures
            r.message.header == (crate::packet_route::tc::TcHeader {
                parent: TcHandle { major: 0xffffu16, minor: TC_H_MIN_EGRESS },
                ..self.message.header
            }),
            r.message.attributes@ == self.message.attributes@,
            r.flags == self.flags,
    {
        let mut ret = self;
        ret.message.header.parent = TcHandle { major: 0xffff, minor: TC_H_MIN_EGRESS };
        ret
    }

    /// The wire request this operation sends: a `DelTrafficFilter`
    /// message with REQUEST|ACK.
    pub fn into_request(self) -> (r: NetlinkRequest)
        ensures
            r.message == RouteNetlinkMessage::DelTrafficFilter(self.message),
            r.flags == self.flags,
    {
        NetlinkRequest { message: RouteNetlinkMessage::DelTrafficFilter(self.message), flags: self.flags }
    }
}

} // verus!
