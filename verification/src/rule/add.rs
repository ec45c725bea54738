//! Creating a policy routing rule, as `ip rule add` does.

use vstd::prelude::*;
use crate::handle::Handle;
use crate::ip::IpAddr;
use crate::packet_route::message::RouteNetlinkMessage;
use crate::packet_route::rule::{RuleAction, RuleAttribute, RuleHeader, RuleMessage};
use crate::proto::{
    NetlinkRequest, NLM_F_ACK, NLM_F_CREATE, NLM_F_EXCL, NLM_F_REPLACE, NLM_F_REQUEST,
};
use crate::route::IpVersion;

verus! {

/// A request to create a new policy rule. This is equivalent to the
/// `ip rule add` command.
pub struct RuleAddRequest {
    pub handle: Handle,
    pub message: RuleMessage,
    pub replace: bool,
}

impl RuleAddRequest {
    /// A fresh rule of the given IP version, jumping to a table.
    pub fn new(handle: Handle, ip_version: IpVersion) -> (r: Self)
        ensures
            r.message.header == (RuleHeader {
                family: ip_version.spec_family(),
                action: RuleAction::ToTable,
                ..RuleHeader::spec_default()
            }),
            r.message.attributes@ == Seq::<RuleAttribute>::empty(),
            !r.replace,
    {
        let mut message = RuleMessage::new();
        message.header.family = ip_version.family();
        message.header.action = RuleAction::ToTable;
        RuleAddRequest { handle, message, replace: false }
    }

    /// Set the action of the rule.
    pub fn action(self, action: RuleAction) -> (r: Self)
        ensures
            r.message.header == (RuleHeader { action, ..self.message.header }),
            r.message.attributes@ == self.message.attributes@,
            r.replace == self.replace,
    {
        let mut ret = self;
        ret.message.header.action = action;
        ret
    }

    /// Set the table the rule selects; a wide table id travels as an
    /// attribute.
    pub fn table_id(self, table: u32) -> (r: Self)
        ensures
            table > 255 ==> {
                &&& r.message.header == self.message.header
                &&& r.message.attributes@ == self.message.attributes@.push(
                    RuleAttribute::Table(table),
                )
            },
            table <= 255 ==> {
                &&& r.message.header == (RuleHeader {
                    table: table as u8,
                    ..self.message.header
                })
                &&& r.message.attributes@ == self.message.attributes@
            },
            r.replace == self.replace,
    {
        let mut ret = self;
        if table > 255 {
            ret.message.attributes.push(RuleAttribute::Table(table));
        } else {
            ret.message.header.table = table as u8;
        }
        ret
    }

    /// Set the rule priority.
    pub fn priority(self, priority: u32) -> (r: Self)
        ensures
            r.message.header == self.message.header,
            r.message.attributes@ == self.message.attributes@.push(
                RuleAttribute::Priority(priority),
            ),
            r.replace == self.replace,
    {
        let mut ret = self;
        ret.message.attributes.push(RuleAttribute::Priority(priority));
        ret
    }

    /// Match the firewall mark.
    pub fn fw_mark(self, mark: u32) -> (r: Self)
        ensures
            r.message.header == self.message.header,
            r.message.attributes@ == self.message.attributes@.push(RuleAttribute::FwMark(mark)),
            r.replace == self.replace,
    {
        let mut ret = self;
        ret.message.attributes.push(RuleAttribute::FwMark(mark));
        ret
    }

    /// Match the source prefix.
    pub fn source_prefix(self, source: IpAddr, prefix_length: u8) -> (r: Self)
        ensures
            r.message.header == (RuleHeader {
                src_len: prefix_length,
                ..self.message.header
            }),
            r.message.attributes@ == self.message.attributes@.push(
                RuleAttribute::Source(source),
            ),
            r.replace == self.replace,
    {
        let mut ret = self;
        ret.message.header.src_len = prefix_length;
        ret.message.attributes.push(RuleAttribute::Source(source));
        ret
    }

    /// Match the destination prefix.
    pub fn destination_prefix(self, destination: IpAddr, prefix_length: u8) -> (r: Self)
        ensures
            r.message.header == (RuleHeader {
                dst_len: prefix_length,
                ..self.message.header
            }),
            r.message.attributes@ == self.message.attributes@.push(
                RuleAttribute::Destination(destination),
            ),
            r.replace == self.replace,
    {
        let mut ret = self;
        ret.message.header.dst_len = prefix_length;
        ret.message.attributes.push(RuleAttribute::Destination(destination));
        ret
    }

    /// Match the input interface by name.
    pub fn input_interface(self, name: String) -> (r: Self)
        ensures
            r.message.header == self.message.header,
            r.message.attributes@ == self.message.attributes@.push(
                RuleAttribute::Iifname(name),
            ),
            r.replace == self.replace,
    {
        let mut ret = self;
        ret.message.attributes.push(RuleAttribute::Iifname(name));
        ret
    }

    /// Match the output interface by name.
    pub fn output_interface(self, name: String) -> (r: Self)
        ensures
            r.message.header == self.message.header,
            r.message.attributes@ == self.message.attributes@.push(
                RuleAttribute::Oifname(name),
            ),
            r.replace == self.replace,
    {
        let mut ret = self;
        ret.message.attributes.push(RuleAttribute::Oifname(name));
        ret
    }

    /// Replace an existing matching rule instead of failing on it.
    pub fn replace(self) -> (r: Self)
        ensures
            r.message == self.message,
            r.replace,
    {
        RuleAddRequest { replace: true, ..self }
    }

    /// The wire request this operation sends: a `NewRule` message with
    /// REQUEST|ACK|CREATE and either EXCL or REPLACE.
    pub fn into_request(self) -> (r: NetlinkRequest)
        ensures
            r.message == RouteNetlinkMessage::NewRule(self.message),
            r.flags == NLM_F_REQUEST | NLM_F_ACK | (if self.replace {
                NLM_F_REPLACE
            } else {
                NLM_F_EXCL
            }) | NLM_F_CREATE,
    {
        let replace: u16 = if self.replace {
            NLM_F_REPLACE
        } else {
            NLM_F_EXCL
        };
        NetlinkRequest {
            message: RouteNetlinkMessage::NewRule(self.message),
            flags: NLM_F_REQUEST | NLM_F_ACK | replace | NLM_F_CREATE,
        }
    }
}

} // verus!
