//! Address messages: the `ifaddrmsg` header and the `IFA_*` attributes.

use vstd::prelude::*;
use crate::ip::{AddressFamily, IpAddr, Ipv4Addr, Ipv6Addr};
use crate::packet_route::link::DefaultNla;

verus! {

/// The fixed header of an address message.
#[derive(Clone, Copy, Debug, PartialEq, Eq, Structural)]
pub struct AddressHeader {
    pub family: AddressFamily,
    pub prefix_len: u8,
    pub flags: u8,
    pub scope: u8,
    pub index: u32,
}

impl AddressHeader {
    pub open spec fn spec_default() -> AddressHeader {
        AddressHeader {
            family: AddressFamily::Unspec,
            prefix_len: 0,
            flags: 0,
            scope: 0,
            index: 0,
        }
    }

    pub fn new() -> (r: AddressHeader)
        ensures
            r == AddressHeader::spec_default(),
    {
        AddressHeader {
            family: AddressFamily::Unspec,
            prefix_len: 0,
            flags: 0,
            scope: 0,
            index: 0,
        }
    }
}

/// One address attribute (`IFA_*`).
#[derive(Clone, Debug, PartialEq, Eq)]
pub enum AddressAttribute {
    Address(IpAddr),
    Local(IpAddr),
    Broadcast(Ipv4Addr),
    Multicast(Ipv6Addr),
    Anycast(Ipv6Addr),
    Label(String),
    Other(DefaultNla),
}

/// A whole address message.
#[derive(Clone, Debug, PartialEq, Eq)]
pub struct AddressMessage {
    pub header: AddressHeader,
    pub attributes: Vec<AddressAttribute>,
}

impl AddressMessage {
    pub fn new() -> (r: AddressMessage)
        ensures
            r.header == AddressHeader::spec_default(),
            r.attributes@ == Seq::<AddressAttribute>::empty(),
    {
        AddressMessage { header: AddressHeader::new(), attributes: Vec::new() }
    }
}

} // verus!
