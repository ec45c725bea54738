//! Nexthop object messages (`RTM_*NEXTHOP`).

use vstd::prelude::*;
use crate::ip::AddressFamily;
use crate::packet_route::link::DefaultNla;

verus! {

/// The `RTNH_F_*` flag bits of a nexthop object.
#[derive(Clone, Copy, Debug, PartialEq, Eq, Structural)]
pub struct NexthopFlags {
    pub bits: u32,
}

impl NexthopFlags {
    /// No flag set.
    pub fn empty() -> (r: NexthopFlags)
        ensures
            r.bits == 0,
    {
        NexthopFlags { bits: 0 }
    }
}

/// The fixed header of a nexthop message. The protocol and scope are the
/// raw byte values of the corresponding route header fields.
#[derive(Clone, Copy, Debug, PartialEq, Eq, Structural)]
pub struct NexthopHeader {
    pub family: AddressFamily,
    pub protocol: u8,
    pub scope: u8,
    pub flags: NexthopFlags,
}

impl NexthopHeader {
    pub open spec fn spec_default() -> NexthopHeader {
        NexthopHeader {
            family: AddressFamily::Unspec,
            protocol: 0,
            scope: 0,
            flags: NexthopFlags { bits: 0 },
        }
    }

    pub fn new() -> (r: NexthopHeader)
        ensures
            r == NexthopHeader::spec_default(),
    {
        NexthopHeader {
            family: AddressFamily::Unspec,
            protocol: 0,
            scope: 0,
            flags: NexthopFlags { bits: 0 },
        }
    }
}

/// One member of a nexthop group: a nexthop id and its weight.
#[derive(Clone, Copy, Debug, PartialEq, Eq, Structural)]
pub struct NexthopGroupEntry {
    pub id: u32,
    pub weight: u8,
    pub resvd1: u8,
    pub resvd2: u8,
}

/// One nexthop attribute (`NHA_*`).
#[derive(Clone, Debug, PartialEq, Eq)]
pub enum NexthopAttribute {
    Id(u32),
    Group(Vec<NexthopGroupEntry>),
    Blackhole,
    Oif(u32),
    Gateway(Vec<u8>),
    Other(DefaultNla),
}

/// A whole nexthop message.
#[derive(Clone, Debug, PartialEq, Eq)]
pub struct NexthopMessage {
    pub header: NexthopHeader,
    pub nlas: Vec<NexthopAttribute>,
}

impl NexthopMessage {
    pub fn new() -> (r: NexthopMessage)
        ensures
            r.header == NexthopHeader::spec_default(),
            r.nlas@ == Seq::<NexthopAttribute>::empty(),
    {
        NexthopMessage { header: NexthopHeader::new(), nlas: Vec::new() }
    }
}

} // verus!
