//! Retrieving links, as `ip link show` does.

use vstd::prelude::*;
use crate::errors::Error;
use crate::handle::Handle;
use crate::link::builder::spec_is_name_attribute;
use crate::packet_route::link::{LinkAttribute, LinkHeader, LinkMessage};
use crate::packet_route::message::RouteNetlinkMessage;
use crate::proto::{NetlinkRequest, ReplyPayload, NLM_F_DUMP, NLM_F_REQUEST};

verus! {

/// A request to retrieve links: the whole table as a dump, or — after
/// [`LinkGetRequest::match_name`] — the one link with a given name.
pub struct LinkGetRequest {
    pub handle: Handle,
    pub message: LinkMessage,
    pub dump: bool,
}

impl LinkGetRequest {
    pub fn new(handle: Handle) -> (r: Self)
        ensures
            r.message.header == LinkHeader::spec_default(),
            r.message.attributes@ == Seq::<LinkAttribute>::empty(),
            r.dump,
    {
        LinkGetRequest { handle, message: LinkMessage::new(), dump: true }
    }

    /// Look up one link by name: the request carries the name and drops
    /// the DUMP flag, so the kernel answers with exactly that link or an
    /// ERROR.
    pub fn match_name(self, name: String) -> (r: Self)
        ensures
            r.message.header == self.message.header,
            r.message.attributes@ == self.message.attributes@.push(LinkAttribute::IfName(name)),
            !r.dump,
    {
        let mut ret = self;
        ret.message.attributes.push(LinkAttribute::IfName(name));
        ret.dump = false;
        ret
    }

    /// Look up one link by interface index, dropping the DUMP flag.
    pub fn match_index(self, index: u32) -> (r: Self)
        ensures
            r.message.header == (LinkHeader { index, ..self.message.header }),
            r.message.attributes@ == self.message.attributes@,
            !r.dump,
    {
        let mut ret = self;
        ret.message.header.index = index;
        ret.dump = false;
        ret
    }

    /// The wire request this operation sends: a `GetLink` message, as a
    /// dump unless narrowed to one link.
    pub fn into_request(self) -> (r: NetlinkRequest)
        ensures
            r.message == RouteNetlinkMessage::GetLink(self.message),
            r.flags == if self.dump {
                NLM_F_REQUEST | NLM_F_DUMP
            } else {
                NLM_F_REQUEST
            },
    {
        let flags: u16 = if self.dump {
            NLM_F_REQUEST | NLM_F_DUMP
        } else {
            NLM_F_REQUEST
        };
        NetlinkRequest { message: RouteNetlinkMessage::GetLink(self.message), flags }
    }
}

/// Whether a dumped link message carries the given interface name.
pub open spec fn spec_link_has_name(message: LinkMessage, name: Seq<char>) -> bool {
    exists|i: int|
        0 <= i < message.attributes@.len() && spec_is_name_attribute(
            #[trigger] message.attributes@[i],
            name,
        )
}

/// Relies on `str` equality from std: two string slices are equal
/// exactly when their character sequences are.
#[verifier::external_body]
fn str_equal(a: &str, b: &str) -> (r: bool)
    ensures
        r == (a@ == b@),
{
    a == b
}

/// Whether the link message carries the given interface name.
pub fn link_has_name(message: &LinkMessage, name: &str) -> (r: bool)
    ensures
        r == spec_link_has_name(*message, name@),
{
    let n: usize = message.attributes.len();
    let mut i: usize = 0;
    while i < n
        invariant
            n == message.attributes@.len(),
            i <= n,
            forall|j: int|
                0 <= j < i ==> !spec_is_name_attribute(#[trigger] message.attributes@[j], name@),
        decreases n - i,
    {
        let carries = match &message.attributes[i] {
            LinkAttribute::IfName(text) => str_equal(text.as_str(), name),
            _ => false,
        };
        if carries {
            proof {
                assert(spec_is_name_attribute(message.attributes@[i as int], name@));
            }
            return true;
        }
        i += 1;
    }
    false
}

/// The outcome of a lookup that expects exactly one link, such as a
/// query by name: the first dumped link, or `RequestFailed` when the
/// stream ended without one.
pub fn single_link(links: Vec<LinkMessage>) -> (r: Result<LinkMessage, Error>)
    ensures
        match r {
            Ok(m) => links@.len() > 0 && m == links@[0],
            Err(e) => links@.len() == 0 && e is RequestFailed,
        },
{
    let mut links = links;
    if links.len() == 0 {
        Err(Error::RequestFailed)
    } else {
        Ok(links.remove(0))
    }
}

/// Interpret one delivered reply of a link query: `Ok(Some(m))` is a
/// link, `Ok(None)` ends the stream, an ERROR reply or a payload of any
/// other kind fails the query.
pub fn next_link_message(payload: ReplyPayload) -> (r: Result<Option<LinkMessage>, Error>)
    ensures
        match r {
            Ok(item) => match payload {
                ReplyPayload::InnerMessage(RouteNetlinkMessage::NewLink(m)) => item == Some(m),
                ReplyPayload::Done => item is None,
                ReplyPayload::Status(code) => code == 0 && item is None,
                ReplyPayload::Overrun => item is None,
                _ => false,
            },
            Err(e) => match payload {
                ReplyPayload::Status(code) => code != 0 && (e matches Error::NetlinkError(em)
                    && em.code == code),
                ReplyPayload::InnerMessage(m) => !(m is NewLink) && e is UnexpectedMessage,
                ReplyPayload::Noop => e is UnexpectedMessage,
                _ => false,
            },
        },
{
    match payload {
        ReplyPayload::InnerMessage(inner) => match inner {
            RouteNetlinkMessage::NewLink(m) => Ok(Some(m)),
            _ => Err(Error::UnexpectedMessage),
        },
        ReplyPayload::Done => Ok(None),
        ReplyPayload::Overrun => Ok(None),
        ReplyPayload::Status(code) => {
            match crate::proto::check_ack(&ReplyPayload::Status(code)) {
                Ok(()) => Ok(None),
                Err(e) => Err(e),
            }
        },
        ReplyPayload::Noop => Err(Error::UnexpectedMessage),
    }
}

} // verus!
