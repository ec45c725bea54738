//! Dumping addresses, with the client-side post-filter. The kernel does
//! not filter dumped addresses by match criteria, so the filtering runs
//! here, on each received message.

use vstd::prelude::*;
use crate::errors::Error;
use crate::handle::Handle;
use crate::ip::IpAddr;
use crate::packet_route::address::{AddressAttribute, AddressMessage};
use crate::packet_route::message::RouteNetlinkMessage;
use crate::proto::{NetlinkRequest, ReplyPayload, NLM_F_DUMP, NLM_F_REQUEST};

verus! {

/// Whether one attribute carries the filtered address: as the primary
/// `Address`, the `Local` address, or — for an IPv6 address — the
/// `Multicast` or `Anycast` attribute.
pub open spec fn spec_attribute_carries(attribute: AddressAttribute, address: IpAddr) -> bool {
    match attribute {
        AddressAttribute::Address(x) => x == address,
        AddressAttribute::Local(x) => x == address,
        AddressAttribute::Multicast(x) => IpAddr::V6(x) == address,
        AddressAttribute::Anycast(x) => IpAddr::V6(x) == address,
        _ => false,
    }
}

/// Whether any attribute of the message carries the filtered address.
pub open spec fn spec_message_carries(message: AddressMessage, address: IpAddr) -> bool {
    exists|i: int|
        0 <= i < message.attributes@.len() && spec_attribute_carries(
            #[trigger] message.attributes@[i],
            address,
        )
}

/// The client-side filter of an address dump: each criterion that is set
/// must hold of a message for the message to pass.
#[derive(Clone, Copy, Debug, PartialEq, Eq, Structural)]
pub struct AddressFilter {
    pub index: Option<u32>,
    pub address: Option<IpAddr>,
    pub prefix_len: Option<u8>,
}

impl AddressFilter {
    /// A filter that passes everything.
    pub fn new() -> (r: AddressFilter)
        ensures
            r.index is None,
            r.address is None,
            r.prefix_len is None,
    {
        AddressFilter { index: None, address: None, prefix_len: None }
    }

    /// What it means for a message to pass this filter.
    pub open spec fn spec_matches(self, message: AddressMessage) -> bool {
        &&& (self.index matches Some(index) ==> message.header.index == index)
        &&& (self.prefix_len matches Some(prefix_len) ==> message.header.prefix_len == prefix_len)
        &&& (self.address matches Some(address) ==> spec_message_carries(message, address))
    }

    /// Apply the filter to one dumped address message.
    pub fn matches(&self, message: &AddressMessage) -> (r: bool)
        ensures
            r == self.spec_matches(*message),
    {
        match self.index {
            Some(index) => {
                if message.header.index != index {
                    return false;
                }
            },
            None => {},
        }
        match self.prefix_len {
            Some(prefix_len) => {
                if message.header.prefix_len != prefix_len {
                    return false;
                }
            },
            None => {},
        }
        match self.address {
            Some(address) => {
                let n: usize = message.attributes.len();
                let mut i: usize = 0;
                while i < n
                    invariant
                        n == message.attributes@.len(),
                        i <= n,
                        self.address == Some(address),
                        self.index matches Some(index) ==> message.header.index == index,
                        self.prefix_len matches Some(prefix_len) ==> message.header.prefix_len
                            == prefix_len,
                        forall|j: int|
                            0 <= j < i ==> !spec_attribute_carries(
                                #[trigger] message.attributes@[j],
                                address,
                            ),
                    decreases n - i,
                {
                    let carries = match &message.attributes[i] {
                        AddressAttribute::Address(x) => *x == address,
                        AddressAttribute::Local(x) => *x == address,
                        AddressAttribute::Multicast(x) => IpAddr::V6(*x) == address,
                        AddressAttribute::Anycast(x) => IpAddr::V6(*x) == address,
                        _ => false,
                    };
                    if carries {
                        proof {
                            assert(spec_attribute_carries(message.attributes@[i as int], address));
                        }
                        return true;
                    }
                    i += 1;
                }
                false
            },
            None => true,
        }
    }
}

/// A request to dump addresses, filtered client-side.
pub struct AddressGetRequest {
    pub handle: Handle,
    pub message: AddressMessage,
    pub filter: AddressFilter,
}

impl AddressGetRequest {
    pub fn new(handle: Handle) -> (r: Self)
        ensures
            r.message.header == crate::packet_route::address::AddressHeader::spec_default(),
            r.message.attributes@ == Seq::<AddressAttribute>::empty(),
            r.filter == (AddressFilter { index: None, address: None, prefix_len: None }),
    {
        AddressGetRequest { handle, message: AddressMessage::new(), filter: AddressFilter::new() }
    }

    /// Return only the addresses of the given interface.
    pub fn set_link_index_filter(self, index: u32) -> (r: Self)
        ensures
            r.filter == (AddressFilter { index: Some(index), ..self.filter }),
            r.message == self.message,
    {
        let mut ret = self;
        ret.filter.index = Some(index);
        ret
    }

    /// Return only the addresses of the given prefix length.
    pub fn set_prefix_length_filter(self, prefix: u8) -> (r: Self)
        ensures
            r.filter == (AddressFilter { prefix_len: Some(prefix), ..self.filter }),
            r.message == self.message,
    {
        let mut ret = self;
        ret.filter.prefix_len = Some(prefix);
        ret
    }

    /// Return only the messages that carry the given address, as
    /// `Address`, `Local`, `Multicast` or `Anycast`.
    pub fn set_address_filter(self, address: IpAddr) -> (r: Self)
        ensures
            r.filter == (AddressFilter { address: Some(address), ..self.filter }),
            r.message == self.message,
    {
        let mut ret = self;
        ret.filter.address = Some(address);
        ret
    }

    /// The wire request this operation sends: a `GetAddress` dump.
    pub fn into_request(self) -> (r: (NetlinkRequest, AddressFilter))
        ensures
            r.0.message == RouteNetlinkMessage::GetAddress(self.message),
            r.0.flags == NLM_F_REQUEST | NLM_F_DUMP,
            r.1 == self.filter,
    {
        (
            NetlinkRequest {
                message: RouteNetlinkMessage::GetAddress(self.message),
                flags: NLM_F_REQUEST | NLM_F_DUMP,
            },
            self.filter,
        )
    }
}

/// Interpret one delivered reply of an address dump: `Ok(Some(m))` is a
/// dumped address, `Ok(None)` ends the stream, an ERROR reply or a
/// payload of any other kind fails the dump.
pub fn next_address_message(payload: ReplyPayload) -> (r: Result<Option<AddressMessage>, Error>)
    ensures
        match r {
            Ok(item) => match payload {
                ReplyPayload::InnerMessage(RouteNetlinkMessage::NewAddress(m)) => item == Some(m),
                ReplyPayload::Done => item is None,
                ReplyPayload::Status(code) => code == 0 && item is None,
                ReplyPayload::Overrun => item is None,
                _ => false,
            },
            Err(e) => match payload {
                ReplyPayload::Status(code) => code != 0 && (e matches Error::NetlinkError(em)
                    && em.code == code),
                ReplyPayload::InnerMessage(m) => !(m is NewAddress) && e is UnexpectedMessage,
                ReplyPayload::Noop => e is UnexpectedMessage,
                _ => false,
            },
        },
{
    match payload {
        ReplyPayload::InnerMessage(inner) => match inner {
            RouteNetlinkMessage::NewAddress(m) => Ok(Some(m)),
            _ => Err(Error::UnexpectedMessage),
        },
        ReplyPayload::Done => Ok(None),
        ReplyPayload::Overrun => Ok(None),
        ReplyPayload::Status(code) => {
            match crate::proto::check_ack(&ReplyPayload::Status(code)) {
                Ok(()) => Ok(None),
                Err(e) => Err(e),
            }
        },
        ReplyPayload::Noop => Err(Error::UnexpectedMessage),
    }
}

} // verus!
