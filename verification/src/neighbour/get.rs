//! Dumping the neighbour table, as `ip neighbour show` does.

use vstd::prelude::*;
use crate::errors::Error;
use crate::handle::Handle;
use crate::packet_route::message::RouteNetlinkMessage;
use crate::packet_route::neighbour::{NeighbourHeader, NeighbourMessage};
use crate::proto::{NetlinkRequest, ReplyPayload, NLM_F_DUMP, NLM_F_REQUEST};
use crate::route::IpVersion;

verus! {

/// A request to dump neighbour (ARP/NDP) table entries.
pub struct NeighbourGetRequest {
    pub handle: Handle,
    pub message: NeighbourMessage,
}

impl NeighbourGetRequest {
    pub fn new(handle: Handle) -> (r: Self)
        ensures
            r.message.header == NeighbourHeader::spec_default(),
            r.message.attributes@ == Seq::<
                crate::packet_route::neighbour::NeighbourAttribute,
            >::empty(),
    {
        NeighbourGetRequest { handle, message: NeighbourMessage::new() }
    }

    /// Restrict the dump to one IP version.
    pub fn set_family(self, ip_version: IpVersion) -> (r: Self)
        ensures
            r.message.header == (NeighbourHeader {
                family: ip_version.spec_family(),
                ..self.message.header
            }),
            r.message.attributes@ == self.message.attributes@,
    {
        let mut ret = self;
        ret.message.header.family = ip_version.family();
        ret
    }

    /// The wire request this operation sends: a `GetNeighbour` dump.
    pub fn into_request(self) -> (r: NetlinkRequest)
        ensures
            r.message == RouteNetlinkMessage::GetNeighbour(self.message),
            r.flags == NLM_F_REQUEST | NLM_F_DUMP,
    {
        NetlinkRequest {
            message: RouteNetlinkMessage::GetNeighbour(self.message),
            flags: NLM_F_REQUEST | NLM_F_DUMP,
        }
    }
}

/// Interpret one delivered reply of a neighbour dump: `Ok(Some(m))` is
/// an entry, `Ok(None)` ends the stream, an ERROR reply or a payload of
/// any other kind fails the dump.
pub fn next_neighbour_message(payload: ReplyPayload) -> (r: Result<
    Option<NeighbourMessage>,
    Error,
>)
    ensures
        match r {
            Ok(item) => match payload {
                ReplyPayload::InnerMessage(RouteNetlinkMessage::NewNeighbour(m)) => item == Some(
                    m,
                ),
                ReplyPayload::Done => item is None,
                ReplyPayload::Status(code) => code == 0 && item is None,
                ReplyPayload::Overrun => item is None,
                _ => false,
            },
            Err(e) => match payload {
                ReplyPayload::Status(code) => code != 0 && (e matches Error::NetlinkError(em)
                    && em.code == code),
                ReplyPayload::InnerMessage(m) => !(m is NewNeighbour) && e is UnexpectedMessage,
                ReplyPayload::Noop => e is UnexpectedMessage,
                _ => false,
            },
        },
{
    match payload {
        ReplyPayload::InnerMessage(inner) => match inner {
            RouteNetlinkMessage::NewNeighbour(m) => Ok(Some(m)),
            _ => Err(Error::UnexpectedMessage),
        },
        ReplyPayload::Done => Ok(None),
        ReplyPayload::Overrun => Ok(None),
        ReplyPayload::Status(code) => {
            match crate::proto::check_ack(&ReplyPayload::Status(code)) {
                Ok(()) => Ok(None),
                Err(e) => Err(e),
            }
        },
        ReplyPayload::Noop => Err(Error::UnexpectedMessage),
    }
}

} // verus!
