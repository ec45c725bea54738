//! Retrieving routes, as `ip route show` does.

use vstd::prelude::*;
use crate::errors::Error;
use crate::handle::Handle;
use crate::ip::AddressFamily;
use crate::packet_route::message::RouteNetlinkMessage;
use crate::packet_route::route::RouteMessage;
use crate::proto::{NetlinkRequest, ReplyPayload, NLM_F_DUMP, NLM_F_REQUEST};

verus! {

/// Internet Protocol (IP) version.
#[derive(Clone, Debug, PartialEq, Eq, Structural)]
pub enum IpVersion {
    /// IPv4
    V4,
    /// IPv6
    V6,
}

impl IpVersion {
    /// The netlink address family of this IP version.
    pub open spec fn spec_family(self) -> AddressFamily {
        match self {
            IpVersion::V4 => AddressFamily::Inet,
            IpVersion::V6 => AddressFamily::Inet6,
        }
    }

    pub fn family(self) -> (r: AddressFamily)
        ensures
            r == self.spec_family(),
    {
        match self {
            IpVersion::V4 => AddressFamily::Inet,
            IpVersion::V6 => AddressFamily::Inet6,
        }
    }
}

/// A request to dump routing table entries. To have the kernel filter
/// by the header fields of the carried message, strict checking must be
/// enabled on the socket; otherwise they are advisory.
pub struct RouteGetRequest {
    pub handle: Handle,
    pub message: RouteMessage,
}

impl RouteGetRequest {
    pub fn new(handle: Handle, message: RouteMessage) -> (r: Self)
        ensures
            r.message == message,
    {
        RouteGetRequest { handle, message }
    }

    /// The wire request this operation sends: a `GetRoute` dump.
    pub fn into_request(self) -> (r: NetlinkRequest)
        ensures
            r.message == RouteNetlinkMessage::GetRoute(self.message),
            r.flags == NLM_F_REQUEST | NLM_F_DUMP,
    {
        NetlinkRequest {
            message: RouteNetlinkMessage::GetRoute(self.message),
            flags: NLM_F_REQUEST | NLM_F_DUMP,
        }
    }
}

/// Interpret one delivered reply of a route dump: `Ok(Some(m))` is a
/// route, `Ok(None)` ends the stream, an ERROR reply or a payload of any
/// other kind fails the dump.
pub fn next_route_message(payload: ReplyPayload) -> (r: Result<Option<RouteMessage>, Error>)
    ensures
        match r {
            Ok(item) => match payload {
                ReplyPayload::InnerMessage(RouteNetlinkMessage::NewRoute(m)) => item == Some(m),
                ReplyPayload::Done => item is None,
                ReplyPayload::Status(code) => code == 0 && item is None,
                ReplyPayload::Overrun => item is None,
                _ => false,
            },
            Err(e) => match payload {
                ReplyPayload::Status(code) => code != 0 && (e matches Error::NetlinkError(em)
                    && em.code == code),
                ReplyPayload::InnerMessage(m) => !(m is NewRoute) && e is UnexpectedMessage,
                ReplyPayload::Noop => e is UnexpectedMessage,
                _ => false,
            },
        },
{
    match payload {
        ReplyPayload::InnerMessage(inner) => match inner {
            RouteNetlinkMessage::NewRoute(m) => Ok(Some(m)),
            _ => Err(Error::UnexpectedMessage),
        },
        ReplyPayload::Done => Ok(None),
        ReplyPayload::Overrun => Ok(None),
        ReplyPayload::Status(code) => {
            match crate::proto::check_ack(&ReplyPayload::Status(code)) {
                Ok(()) => Ok(None),
                Err(e) => Err(e),
            }
        },
        ReplyPayload::Noop => Err(Error::UnexpectedMessage),
    }
}

} // verus!
