//! Building address messages: the family is fixed at construction from
//! the IP address type, and for IPv4 the broadcast address is derived
//! from the prefix length.

use vstd::prelude::*;
use core::marker::PhantomData;
use crate::ip::{AddressFamily, IpAddr, Ipv4Addr, Ipv6Addr};
use crate::packet_route::address::{AddressAttribute, AddressHeader, AddressMessage};

verus! {

/// The broadcast address of an IPv4 network: the address with every host
/// bit set, `address | (0xffff_ffff >> prefix_len)` — except that a full
/// 32-bit prefix (a host address) broadcasts to the address itself.
pub open spec fn spec_broadcast_of(address: Ipv4Addr, prefix_len: u8) -> Ipv4Addr
    recommends
        prefix_len <= 32,
{
    if prefix_len == 32 {
        address
    } else {
        Ipv4Addr { bits: (0xffff_ffffu32 >> prefix_len) | address.bits }
    }
}

/// Compute the broadcast address of `address` with `prefix_len` leading
/// network bits.
pub fn broadcast_of(address: Ipv4Addr, prefix_len: u8) -> (r: Ipv4Addr)
    requires
        prefix_len <= 32,
    ensures
        r == spec_broadcast_of(address, prefix_len),
{
    if prefix_len == 32 {
        address
    } else {
        Ipv4Addr { bits: (0xffff_ffffu32 >> prefix_len) | address.bits }
    }
}

/// Helper struct for building [`AddressMessage`]. The type parameter
/// fixes the address family: the IPv4 builder and the IPv6 builder emit
/// different attribute sets.
#[derive(Debug)]
pub struct AddressMessageBuilder<T> {
    pub message: AddressMessage,
    pub _phantom: PhantomData<T>,
}

impl<T> AddressMessageBuilder<T> {
    /// Create a new builder without specifying the address family.
    fn new_no_address_family() -> (r: Self)
        ensures
            r.message.header == AddressHeader::spec_default(),
            r.message.attributes@ == Seq::<AddressAttribute>::empty(),
    {
        AddressMessageBuilder { message: AddressMessage::new(), _phantom: PhantomData }
    }

    /// Sets the interface index.
    pub fn index(self, index: u32) -> (r: Self)
        ensures
            r.message.header == (AddressHeader { index, ..self.message.header }),
            r.message.attributes@ == self.message.attributes@,
    {
        let mut ret = self;
        ret.message.header.index = index;
        ret
    }

    /// Builds the [`AddressMessage`].
    pub fn build(self) -> (r: AddressMessage)
        ensures
            r == self.message,
    {
        self.message
    }
}

impl AddressMessageBuilder<Ipv4Addr> {
    /// Create a new builder for IPv4 addresses.
    pub fn new() -> (r: Self)
        ensures
            r.message.header == (AddressHeader {
                family: AddressFamily::Inet,
                ..AddressHeader::spec_default()
            }),
            r.message.attributes@ == Seq::<AddressAttribute>::empty(),
    {
        let mut builder = Self::new_no_address_family();
        builder.message.header.family = AddressFamily::Inet;
        builder
    }

    /// Sets the address and prefix length. A non-multicast address is
    /// emitted as `Address` plus a matching `Local` (the kernel
    /// convention when no distinct peer is given), and a `Broadcast`
    /// attribute derived from the prefix length.
    pub fn address(self, address: Ipv4Addr, prefix_len: u8) -> (r: Self)
        requires
            prefix_len <= 32,
        ensures
            r.message.header == (AddressHeader { prefix_len, ..self.message.header }),
            r.message.attributes@ == if address.spec_is_multicast() {
                self.message.attributes@
            } else {
                self.message.attributes@ + seq![
                    AddressAttribute::Address(IpAddr::V4(address)),
                    AddressAttribute::Local(IpAddr::V4(address)),
                    AddressAttribute::Broadcast(spec_broadcast_of(address, prefix_len)),
                ]
            },
    {
        let mut ret = self;
        ret.message.header.prefix_len = prefix_len;
        if !address.is_multicast() {
            ret.message.attributes.push(AddressAttribute::Address(IpAddr::V4(address)));
            // The IFA_LOCAL address defaults to the same value as
            // IFA_ADDRESS.
            ret.message.attributes.push(AddressAttribute::Local(IpAddr::V4(address)));
            let brd = broadcast_of(address, prefix_len);
            ret.message.attributes.push(AddressAttribute::Broadcast(brd));
            proof {
                assert(ret.message.attributes@ =~= self.message.attributes@ + seq![
                    AddressAttribute::Address(IpAddr::V4(address)),
                    AddressAttribute::Local(IpAddr::V4(address)),
                    AddressAttribute::Broadcast(spec_broadcast_of(address, prefix_len)),
                ]);
            }
        }
        ret
    }
}

impl Default for AddressMessageBuilder<Ipv4Addr> {
    fn default() -> (r: Self)
        ensures
            r.message.header == (AddressHeader {
                family: AddressFamily::Inet,
                ..AddressHeader::spec_default()
            }),
            r.message.attributes@ == Seq::<AddressAttribute>::empty(),
    {
        Self::new()
    }
}

impl AddressMessageBuilder<Ipv6Addr> {
    /// Create a new builder for IPv6 addresses.
    pub fn new() -> (r: Self)
        ensures
            r.message.header == (AddressHeader {
                family: AddressFamily::Inet6,
                ..AddressHeader::spec_default()
            }),
            r.message.attributes@ == Seq::<AddressAttribute>::empty(),
    {
        let mut builder = Self::new_no_address_family();
        builder.message.header.family = AddressFamily::Inet6;
        builder
    }

    /// Sets the address and prefix length. A multicast address uses the
    /// distinct `Multicast` attribute; any other address is emitted as
    /// `Address` plus a matching `Local`.
    pub fn address(self, address: Ipv6Addr, prefix_len: u8) -> (r: Self)
        ensures
            r.message.header == (AddressHeader { prefix_len, ..self.message.header }),
            r.message.attributes@ == if address.spec_is_multicast() {
                self.message.attributes@ + seq![AddressAttribute::Multicast(address)]
            } else {
                self.message.attributes@ + seq![
                    AddressAttribute::Address(IpAddr::V6(address)),
                    AddressAttribute::Local(IpAddr::V6(address)),
                ]
            },
    {
        let mut ret = self;
        ret.message.header.prefix_len = prefix_len;
        if address.is_multicast() {
            ret.message.attributes.push(AddressAttribute::Multicast(address));
        } else {
            ret.message.attributes.push(AddressAttribute::Address(IpAddr::V6(address)));
            // The IFA_LOCAL address defaults to the same value as
            // IFA_ADDRESS.
            ret.message.attributes.push(AddressAttribute::Local(IpAddr::V6(address)));
            proof {
                assert(ret.message.attributes@ =~= self.message.attributes@ + seq![
                    AddressAttribute::Address(IpAddr::V6(address)),
                    AddressAttribute::Local(IpAddr::V6(address)),
                ]);
            }
        }
        ret
    }
}

impl Default for AddressMessageBuilder<Ipv6Addr> {
    fn default() -> (r: Self)
        ensures
            r.message.header == (AddressHeader {
                family: AddressFamily::Inet6,
                ..AddressHeader::spec_default()
            }),
            r.message.attributes@ == Seq::<AddressAttribute>::empty(),
    {
        Self::new()
    }
}

} // verus!
