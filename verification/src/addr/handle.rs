//! The address sub-handle: entry points for address operations.

use vstd::prelude::*;
use crate::addr::add::AddressAddRequest;
use crate::addr::del::AddressDelRequest;
use crate::addr::get::AddressGetRequest;
use crate::handle::Handle;
use crate::ip::IpAddr;
use crate::packet_route::address::{AddressAttribute, AddressMessage};

verus! {

pub struct AddressHandle(pub Handle);

impl AddressHandle {
    pub fn new(handle: Handle) -> AddressHandle {
        AddressHandle(handle)
    }

    /// Add an address to the interface with the given index (equivalent
    /// to `ip address add`).
    pub fn add(&self, index: u32, address: IpAddr, prefix_len: u8) -> (r: AddressAddRequest)
        requires
            address is V4 ==> prefix_len <= 32,
        ensures
            r.message.header == crate::addr::add::spec_add_header(index, address, prefix_len),
            r.message.attributes@ == crate::addr::add::spec_add_attributes(address, prefix_len),
            !r.replace,
    {
        AddressAddRequest::new(self.0.clone(), index, address, prefix_len)
    }

    /// Retrieve the addresses of all interfaces (equivalent to
    /// `ip address show`).
    pub fn get(&self) -> (r: AddressGetRequest)
        ensures
            r.message.header == crate::packet_route::address::AddressHeader::spec_default(),
            r.message.attributes@ == Seq::<AddressAttribute>::empty(),
    {
        AddressGetRequest::new(self.0.clone())
    }

    /// Delete the address represented by the given dumped message
    /// (equivalent to `ip address del`).
    pub fn del(&self, address: AddressMessage) -> (r: AddressDelRequest)
        ensures
            r.message == address,
    {
        AddressDelRequest::new(self.0.clone(), address)
    }
}

} // verus!
