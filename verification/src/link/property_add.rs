//! Adding alternative names to a link.

use vstd::prelude::*;
use crate::handle::Handle;
use crate::packet_route::link::{LinkHeader, LinkMessage, Prop};
use crate::packet_route::message::RouteNetlinkMessage;
use crate::proto::{
    NetlinkRequest, NLM_F_ACK, NLM_F_CREATE, NLM_F_EXCL, NLM_F_REQUEST,
};

verus! {

/// A request to add properties — alternative interface names — to the
/// link with a given index.
pub struct LinkNewPropRequest {
    pub handle: Handle,
    pub message: LinkMessage,
}

impl LinkNewPropRequest {
    pub fn new(handle: Handle, index: u32) -> (r: Self)
        ensures
            r.message.header == (LinkHeader { index, ..LinkHeader::spec_default() }),
            r.message.attributes@ == Seq::<crate::packet_route::link::LinkAttribute>::empty(),
    {
        let mut message = LinkMessage::new();
        message.header.index = index;
        LinkNewPropRequest { handle, message }
    }

    /// Add one alternative interface name.
    pub fn alt_ifname(self, name: String) -> (r: Self)
        ensures
            r.message.header == self.message.header,
            r.message.attributes@.len() == self.message.attributes@.len() + 1,
            r.message.attributes@.take(self.message.attributes@.len() as int)
                == self.message.attributes@,
            r.message.attributes@.last() matches
                crate::packet_route::link::LinkAttribute::PropList(props) && props@ == seq![
                Prop::AltIfName(name),
            ],
    {
        let mut ret = self;
        let mut props: Vec<Prop> = Vec::new();
        props.push(Prop::AltIfName(name));
        proof {
            assert(props@ =~= seq![Prop::AltIfName(name)]);
        }
        ret.message.attributes.push(crate::packet_route::link::LinkAttribute::PropList(props));
        proof {
            assert(ret.message.attributes@.take(self.message.attributes@.len() as int)
                =~= self.message.attributes@);
        }
        ret
    }

    /// The wire request this operation sends: a `NewLinkProp` message
    /// with REQUEST|ACK|EXCL|CREATE.
    pub fn into_request(self) -> (r: NetlinkRequest)
        ensures
            r.message == RouteNetlinkMessage::NewLinkProp(self.message),
            r.flags == NLM_F_REQUEST | NLM_F_ACK | NLM_F_EXCL | NLM_F_CREATE,
    {
        NetlinkRequest {
            message: RouteNetlinkMessage::NewLinkProp(self.message),
            flags: NLM_F_REQUEST | NLM_F_ACK | NLM_F_EXCL | NLM_F_CREATE,
        }
    }
}

} // verus!
