//! Dumping policy routing rules, as `ip rule show` does.

use vstd::prelude::*;
use crate::errors::Error;
use crate::handle::Handle;
use crate::packet_route::message::RouteNetlinkMessage;
use crate::packet_route::rule::{RuleAction, RuleAttribute, RuleHeader, RuleMessage};
use crate::packet_route::route::RT_TABLE_UNSPEC;
use crate::proto::{NetlinkRequest, ReplyPayload, NLM_F_DUMP, NLM_F_REQUEST};
use crate::route::IpVersion;

verus! {

/// A request to dump the policy rules of one IP version.
pub struct RuleGetRequest {
    pub handle: Handle,
    pub message: RuleMessage,
}

impl RuleGetRequest {
    pub fn new(handle: Handle, ip_version: IpVersion) -> (r: Self)
        ensures
            r.message.header == (RuleHeader {
                family: ip_version.spec_family(),
                action: RuleAction::Unspec,
                table: RT_TABLE_UNSPEC,
                ..RuleHeader::spec_default()
            }),
            r.message.attributes@ == Seq::<RuleAttribute>::empty(),
    {
        let mut message = RuleMessage::new();
        message.header.family = ip_version.family();
        message.header.dst_len = 0;
        message.header.src_len = 0;
        message.header.tos = 0;
        message.header.action = RuleAction::Unspec;
        message.header.table = RT_TABLE_UNSPEC;
        RuleGetRequest { handle, message }
    }

    /// The wire request this operation sends: a `GetRule` dump.
    pub fn into_request(self) -> (r: NetlinkRequest)
        ensures
            r.message == RouteNetlinkMessage::GetRule(self.message),
            r.flags == NLM_F_REQUEST | NLM_F_DUMP,
    {
        NetlinkRequest {
            message: RouteNetlinkMessage::GetRule(self.message),
            flags: NLM_F_REQUEST | NLM_F_DUMP,
        }
    }
}

/// Interpret one delivered reply of a rule dump: `Ok(Some(m))` is a
/// rule, `Ok(None)` ends the stream, an ERROR reply or a payload of any
/// other kind fails the dump.
pub fn next_rule_message(payload: ReplyPayload) -> (r: Result<Option<RuleMessage>, Error>)
    ensures
        match r {
            Ok(item) => match payload {
                ReplyPayload::InnerMessage(RouteNetlinkMessage::NewRule(m)) => item == Some(m),
                ReplyPayload::Done => item is None,
                ReplyPayload::Status(code) => code == 0 && item is None,
                ReplyPayload::Overrun => item is None,
                _ => false,
            },
            Err(e) => match payload {
                ReplyPayload::Status(code) => code != 0 && (e matches Error::NetlinkError(em)
                    && em.code == code),
                ReplyPayload::InnerMessage(m) => !(m is NewRule) && e is UnexpectedMessage,
                ReplyPayload::Noop => e is UnexpectedMessage,
                _ => false,
            },
        },
{
    match payload {
        ReplyPayload::InnerMessage(inner) => match inner {
            RouteNetlinkMessage::NewRule(m) => Ok(Some(m)),
            _ => Err(Error::UnexpectedMessage),
        },
        ReplyPayload::Done => Ok(None),
        ReplyPayload::Overrun => Ok(None),
        ReplyPayload::Status(code) => {
            match crate::proto::check_ack(&ReplyPayload::Status(code)) {
                Ok(()) => Ok(None),
                Err(e) => Err(e),
            }
        },
        ReplyPayload::Noop => Err(Error::UnexpectedMessage),
    }
}

} // verus!
