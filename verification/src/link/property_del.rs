//! Removing alternative names from a link.

use vstd::prelude::*;
use crate::handle::Handle;
use crate::packet_route::link::{LinkAttribute, LinkHeader, LinkMessage, Prop};
use crate::packet_route::message::RouteNetlinkMessage;
use crate::proto::{NetlinkRequest, NLM_F_ACK, NLM_F_REQUEST};

verus! {

/// A request to remove properties — alternative interface names — from
/// the link with a given index.
pub struct LinkDelPropRequest {
    pub handle: Handle,
    pub message: LinkMessage,
}

impl LinkDelPropRequest {
    pub fn new(handle: Handle, index: u32) -> (r: Self)
        ensures
            r.message.header == (LinkHeader { index, ..LinkHeader::spec_default() }),
            r.message.attributes@ == Seq::<LinkAttribute>::empty(),
    {
        let mut message = LinkMessage::new();
        message.header.index = index;
        LinkDelPropRequest { handle, message }
    }

    /// Remove one alternative interface name.
    pub fn alt_ifname(self, name: String) -> (r: Self)
        ensures
            r.message.header == self.message.header,
            r.message.attributes@.len() == self.message.attributes@.len() + 1,
            r.message.attributes@.take(self.message.attributes@.len() as int)
                == self.message.attributes@,
            r.message.attributes@.last() matches LinkAttribute::PropList(props) && props@
                == seq![Prop::AltIfName(name)],
    {
        let mut ret = self;
        let mut props: Vec<Prop> = Vec::new();
        props.push(Prop::AltIfName(name));
        proof {
            assert(props@ =~= seq![Prop::AltIfName(name)]);
        }
        ret.message.attributes.push(LinkAttribute::PropList(props));
        proof {
            assert(ret.message.attributes@.take(self.message.attributes@.len() as int)
                =~= self.message.attributes@);
        }
        ret
    }

    /// The wire request this operation sends: a `DelLinkProp` message
    /// with REQUEST|ACK.
    pub fn into_request(self) -> (r: NetlinkRequest)
        ensures
            r.message == RouteNetlinkMessage::DelLinkProp(self.message),
            r.flags == NLM_F_REQUEST | NLM_F_ACK,
    {
        NetlinkRequest {
            message: RouteNetlinkMessage::DelLinkProp(self.message),
            flags: NLM_F_REQUEST | NLM_F_ACK,
        }
    }
}

} // verus!
