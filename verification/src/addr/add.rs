//! Creating a new address, as `ip address add` does.

use vstd::prelude::*;
use crate::addr::builder::{spec_broadcast_of, AddressMessageBuilder};
use crate::handle::Handle;
use crate::ip::{AddressFamily, IpAddr, Ipv4Addr, Ipv6Addr};
use crate::packet_route::address::{AddressAttribute, AddressHeader, AddressMessage};
use crate::packet_route::message::RouteNetlinkMessage;
use crate::proto::{
    NetlinkRequest, NLM_F_ACK, NLM_F_CREATE, NLM_F_EXCL, NLM_F_REPLACE, NLM_F_REQUEST,
};

verus! {

/// The header a fresh add request carries for the given interface,
/// address and prefix length.
pub open spec fn spec_add_header(index: u32, address: IpAddr, prefix_len: u8) -> AddressHeader {
    AddressHeader {
        family: if address is V4 {
            AddressFamily::Inet
        } else {
            AddressFamily::Inet6
        },
        prefix_len,
        index,
        ..AddressHeader::spec_default()
    }
}

/// The attributes a fresh add request carries for the given address and
/// prefix length.
pub open spec fn spec_add_attributes(address: IpAddr, prefix_len: u8) -> Seq<AddressAttribute> {
    match address {
        IpAddr::V4(v4) => if v4.spec_is_multicast() {
            Seq::empty()
        } else {
            seq![
                AddressAttribute::Address(IpAddr::V4(v4)),
                AddressAttribute::Local(IpAddr::V4(v4)),
                AddressAttribute::Broadcast(spec_broadcast_of(v4, prefix_len)),
            ]
        },
        IpAddr::V6(v6) => if v6.spec_is_multicast() {
            seq![AddressAttribute::Multicast(v6)]
        } else {
            seq![
                AddressAttribute::Address(IpAddr::V6(v6)),
                AddressAttribute::Local(IpAddr::V6(v6)),
            ]
        },
    }
}

/// A request to create a new address. This is equivalent to the
/// `ip address add` command.
pub struct AddressAddRequest {
    pub handle: Handle,
    pub message: AddressMessage,
    pub replace: bool,
}

impl AddressAddRequest {
    pub fn new(handle: Handle, index: u32, address: IpAddr, prefix_len: u8) -> (r: Self)
        requires
            address is V4 ==> prefix_len <= 32,
        ensures
            r.message.header == spec_add_header(index, address, prefix_len),
            r.message.attributes@ == spec_add_attributes(address, prefix_len),
            !r.replace,
    {
        let message = match address {
            IpAddr::V4(v4) => AddressMessageBuilder::<Ipv4Addr>::new().index(index).address(
                v4,
                prefix_len,
            ).build(),
            IpAddr::V6(v6) => AddressMessageBuilder::<Ipv6Addr>::new().index(index).address(
                v6,
                prefix_len,
            ).build(),
        };
        AddressAddRequest { handle, message, replace: false }
    }

    /// Replace an existing matching address instead of failing on it.
    pub fn replace(self) -> (r: Self)
        ensures
            r.message == self.message,
            r.replace,
    {
        AddressAddRequest { replace: true, ..self }
    }

    /// The wire request this operation sends: a `NewAddress` message with
    /// REQUEST|ACK|CREATE and either EXCL (fail on an existing match) or
    /// REPLACE.
    pub fn into_request(self) -> (r: NetlinkRequest)
        ensures
            r.message == RouteNetlinkMessage::NewAddress(self.message),
            r.flags == NLM_F_REQUEST | NLM_F_ACK | (if self.replace {
                NLM_F_REPLACE
            } else {
                NLM_F_EXCL
            }) | NLM_F_CREATE,
    {
        let replace: u16 = if self.replace {
            NLM_F_REPLACE
        } else {
            NLM_F_EXCL
        };
        NetlinkRequest {
            message: RouteNetlinkMessage::NewAddress(self.message),
            flags: NLM_F_REQUEST | NLM_F_ACK | replace | NLM_F_CREATE,
        }
    }
}

} // verus!
