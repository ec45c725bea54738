//! Neighbour (ARP/NDP and bridge FDB) messages.

use vstd::prelude::*;
use crate::ip::{AddressFamily, Ipv4Addr, Ipv6Addr};
use crate::packet_route::link::DefaultNla;
use crate::packet_route::route::RouteType;

verus! {

/// The state of a neighbour cache entry (`NUD_*`).
#[derive(Clone, Copy, Debug, PartialEq, Eq, Structural)]
pub enum NeighbourState {
    /// `NUD_NONE`: no state recorded.
    Unset,
    Incomplete,
    Reachable,
    Stale,
    Delay,
    Probe,
    Failed,
    Noarp,
    Permanent,
}

/// The `NTF_*` flag bits of a neighbour cache entry.
#[derive(Clone, Copy, Debug, PartialEq, Eq, Structural)]
pub struct NeighbourFlags {
    pub bits: u8,
}

impl NeighbourFlags {
    /// No flag set.
    pub fn empty() -> (r: NeighbourFlags)
        ensures
            r.bits == 0,
    {
        NeighbourFlags { bits: 0 }
    }
}

/// The fixed header of a neighbour message.
#[derive(Clone, Copy, Debug, PartialEq, Eq, Structural)]
pub struct NeighbourHeader {
    pub family: AddressFamily,
    pub ifindex: u32,
    pub state: NeighbourState,
    pub flags: NeighbourFlags,
    pub kind: RouteType,
}

impl NeighbourHeader {
    pub open spec fn spec_default() -> NeighbourHeader {
        NeighbourHeader {
            family: AddressFamily::Unspec,
            ifindex: 0,
            state: NeighbourState::Unset,
            flags: NeighbourFlags { bits: 0 },
            kind: RouteType::Unspec,
        }
    }

    pub fn new() -> (r: NeighbourHeader)
        ensures
            r == NeighbourHeader::spec_default(),
    {
        NeighbourHeader {
            family: AddressFamily::Unspec,
            ifindex: 0,
            state: NeighbourState::Unset,
            flags: NeighbourFlags { bits: 0 },
            kind: RouteType::Unspec,
        }
    }
}

/// The target address of a neighbour entry.
#[derive(Clone, Debug, PartialEq, Eq)]
pub enum NeighbourAddress {
    Inet(Ipv4Addr),
    Inet6(Ipv6Addr),
    Other(Vec<u8>),
}

/// One neighbour attribute (`NDA_*`).
#[derive(Clone, Debug, PartialEq, Eq)]
pub enum NeighbourAttribute {
    Destination(NeighbourAddress),
    LinkLocalAddress(Vec<u8>),
    Other(DefaultNla),
}

/// A whole neighbour message.
#[derive(Clone, Debug, PartialEq, Eq)]
pub struct NeighbourMessage {
    pub header: NeighbourHeader,
    pub attributes: Vec<NeighbourAttribute>,
}

impl NeighbourMessage {
    pub fn new() -> (r: NeighbourMessage)
        ensures
            r.header == NeighbourHeader::spec_default(),
            r.attributes@ == Seq::<NeighbourAttribute>::empty(),
    {
        NeighbourMessage { header: NeighbourHeader::new(), attributes: Vec::new() }
    }
}

} // verus!
