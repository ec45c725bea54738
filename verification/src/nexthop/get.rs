//! Dumping nexthop objects, as `ip nexthop show` does.

use vstd::prelude::*;
use crate::errors::Error;
use crate::handle::Handle;
use crate::packet_route::message::RouteNetlinkMessage;
use crate::packet_route::nexthop::{NexthopAttribute, NexthopHeader, NexthopMessage};
use crate::proto::{NetlinkRequest, ReplyPayload, NLM_F_DUMP, NLM_F_REQUEST};

verus! {

/// A request to dump nexthop objects.
pub struct NexthopGetRequest {
    pub handle: Handle,
    pub message: NexthopMessage,
}

impl NexthopGetRequest {
    pub fn new(handle: Handle) -> (r: Self)
        ensures
            r.message.header == NexthopHeader::spec_default(),
            r.message.nlas@ == Seq::<NexthopAttribute>::empty(),
    {
        NexthopGetRequest { handle, message: NexthopMessage::new() }
    }

    /// The wire request this operation sends: a `GetNexthop` dump.
    pub fn into_request(self) -> (r: NetlinkRequest)
        ensures
            r.message == RouteNetlinkMessage::GetNexthop(self.message),
            r.flags == NLM_F_REQUEST | NLM_F_DUMP,
    {
        NetlinkRequest {
            message: RouteNetlinkMessage::GetNexthop(self.message),
            flags: NLM_F_REQUEST | NLM_F_DUMP,
        }
    }
}

/// Interpret one delivered reply of a nexthop dump: `Ok(Some(m))` is a
/// nexthop, `Ok(None)` ends the stream, an ERROR reply or a payload of
/// any other kind fails the dump.
pub fn next_nexthop_message(payload: ReplyPayload) -> (r: Result<Option<NexthopMessage>, Error>)
    ensures
        match r {
            Ok(item) => match payload {
                ReplyPayload::InnerMessage(RouteNetlinkMessage::NewNexthop(m)) => item == Some(
                    m,
                ),
                ReplyPayload::Done => item is None,
                ReplyPayload::Status(code) => code == 0 && item is None,
                ReplyPayload::Overrun => item is None,
                _ => false,
            },
            Err(e) => match payload {
                ReplyPayload::Status(code) => code != 0 && (e matches Error::NetlinkError(em)
                    && em.code == code),
                ReplyPayload::InnerMessage(m) => !(m is NewNexthop) && e is UnexpectedMessage,
                ReplyPayload::Noop => e is UnexpectedMessage,
                _ => false,
            },
        },
{
    match payload {
        ReplyPayload::InnerMessage(inner) => match inner {
            RouteNetlinkMessage::NewNexthop(m) => Ok(Some(m)),
            _ => Err(Error::UnexpectedMessage),
        },
        ReplyPayload::Done => Ok(None),
        ReplyPayload::Overrun => Ok(None),
        ReplyPayload::Status(code) => {
            match crate::proto::check_ack(&ReplyPayload::Status(code)) {
                Ok(()) => Ok(None),
                Err(e) => Err(e),
            }
        },
        ReplyPayload::Noop => Err(Error::UnexpectedMessage),
    }
}

} // verus!
