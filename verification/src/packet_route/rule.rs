//! Policy-routing rule messages (`RTM_*RULE`).

use vstd::prelude::*;
use crate::ip::{AddressFamily, IpAddr};
use crate::packet_route::link::DefaultNla;

verus! {

/// What a matching rule does.
#[derive(Clone, Copy, Debug, PartialEq, Eq, Structural)]
pub enum RuleAction {
    Unspec,
    ToTable,
    GoTo,
    Nop,
    Blackhole,
    Unreachable,
    Prohibit,
    Other(u8),
}

/// The fixed header of a rule message.
#[derive(Clone, Copy, Debug, PartialEq, Eq, Structural)]
pub struct RuleHeader {
    pub family: AddressFamily,
    pub dst_len: u8,
    pub src_len: u8,
    pub tos: u8,
    pub table: u8,
    pub action: RuleAction,
    pub flags: u32,
}

impl RuleHeader {
    pub open spec fn spec_default() -> RuleHeader {
        RuleHeader {
            family: AddressFamily::Unspec,
            dst_len: 0,
            src_len: 0,
            tos: 0,
            table: 0,
            action: RuleAction::Unspec,
            flags: 0,
        }
    }

    pub fn new() -> (r: RuleHeader)
        ensures
            r == RuleHeader::spec_default(),
    {
        RuleHeader {
            family: AddressFamily::Unspec,
            dst_len: 0,
            src_len: 0,
            tos: 0,
            table: 0,
            action: RuleAction::Unspec,
            flags: 0,
        }
    }
}

/// One rule attribute (`FRA_*`).
#[derive(Clone, Debug, PartialEq, Eq)]
pub enum RuleAttribute {
    Destination(IpAddr),
    Source(IpAddr),
    Table(u32),
    Priority(u32),
    FwMark(u32),
    Iifname(String),
    Oifname(String),
    Other(DefaultNla),
}

/// A whole rule message.
#[derive(Clone, Debug, PartialEq, Eq)]
pub struct RuleMessage {
    pub header: RuleHeader,
    pub attributes: Vec<RuleAttribute>,
}

impl RuleMessage {
    pub fn new() -> (r: RuleMessage)
        ensures
            r.header == RuleHeader::spec_default(),
            r.attributes@ == Seq::<RuleAttribute>::empty(),
    {
        RuleMessage { header: RuleHeader::new(), attributes: Vec::new() }
    }
}

} // verus!
