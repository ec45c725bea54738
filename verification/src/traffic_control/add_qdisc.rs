//! Creating a queue discipline, as `tc qdisc add` does.

use vstd::prelude::*;
use crate::handle::Handle;
use crate::packet_route::message::RouteNetlinkMessage;
use crate::packet_route::tc::{TcAttribute, TcHandle, TcMessage};
use crate::proto::{NetlinkRequest, NLM_F_ACK, NLM_F_REQUEST};

verus! {

/// A request to create a queue discipline on one interface.
pub struct QDiscNewRequest {
    pub handle: Handle,
    pub message: TcMessage,
    pub flags: u16,
}

impl QDiscNewRequest {
    /// A fresh request around the given message; `flags` are extra
    /// netlink header bits (such as CREATE or REPLACE) joined to
    /// REQUEST.
    pub fn new(handle: Handle, message: TcMessage, flags: u16) -> (r: Self)
        ensures
            r.message == message,
            r.flags == NLM_F_REQUEST | flags,
    {
        QDiscNewRequest { handle, message, flags: NLM_F_REQUEST | flags }
    }

    /// Set the handle.
    pub fn handle(self, major: u16, minor: u16) -> (r: Self)
        ensures
            r.message.header == (crate::packet_route::tc::TcHeader {
                handle: TcHandle { major, minor },
                ..self.message.header
            }),
            r.message.attributes@ == self.message.attributes@,
            r.flags == self.flags,
    {
        let mut ret = self;
        ret.message.header.handle = TcHandle { major, minor };
        ret
    }

    /// Set the parent to the root.
    pub fn root(self) -> (r: Self)
        ensures
            r.message.header == (crate::packet_route::tc::TcHeader {
                parent: TcHandle { major: 0xffffu16, minor: 0xffffu16 },
                ..self.message.header
            }),
            r.message.attributes@ == self.message.attributes@,
            r.flags == self.flags,
    {
        let mut ret = self;
        ret.message.header.parent = TcHandle::root();
        ret
    }

    /// Set the parent.
    pub fn parent(self, parent: u32) -> (r: Self)
        ensures
            r.message.header == (crate::packet_route::tc::TcHeader {
                parent: TcHandle::spec_from_u32(parent),
                ..self.message.header
            }),
            r.message.attributes@ == self.message.attributes@,
            r.flags == self.flags,
    {
        let mut ret = self;
        ret.message.header.parent = TcHandle::from_u32(parent);
        ret
    }

    /// Make this an ingress qdisc: the ingress pseudo-parent, the fixed
    /// ingress handle, and the `ingress` kind attribute.
    pub fn ingress(self) -> (r: Self)
        ensures
            r.message.header == (crate::packet_route::tc::TcHeader {
                parent: TcHandle { major: 0xffffu16, minor: 0xfff1u16 },
                handle: TcHandle { major: 0xffffu16, minor: 0u16 },
                ..self.message.header
            }),
            r.message.attributes@.len() == self.message.attributes@.len() + 1,
            r.message.attributes@.take(self.message.attributes@.len() as int)
                == self.message.attributes@,
            r.message.attributes@.last() matches TcAttribute::Kind(kind) && kind@
                == "ingress"@,
            r.flags == self.flags,
    {
        let mut ret = self;
        ret.message.header.parent = TcHandle::ingress();
        ret.message.header.handle = TcHandle::from_u32(0xffff0000);
        proof {
            assert(0xffff0000u32 >> 16 == 0xffffu32 && 0xffff0000u32 & 0xffff == 0u32)
                by (bit_vector);
        }
        let kind = String::from_str("ingress");
        ret.message.attributes.push(TcAttribute::Kind(kind));
        proof {
            assert(ret.message.attributes@.take(self.message.attributes@.len() as int)
                =~= self.message.attributes@);
        }
        ret
    }

    /// The wire request this operation sends: a `NewQueueDiscipline`
    /// message with ACK joined to the accumulated flags.
    pub fn into_request(self) -> (r: NetlinkRequest)
        ensures
            r.message == RouteNetlinkMessage::NewQueueDiscipline(self.message),
            r.flags == NLM_F_ACK | self.flags,
    {
        NetlinkRequest {
            message: RouteNetlinkMessage::NewQueueDiscipline(self.message),
            flags: NLM_F_ACK | self.flags,
        }
    }
}

} // verus!
