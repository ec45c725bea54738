//! The neighbour sub-handle: entry points for neighbour operations.

use vstd::prelude::*;
use crate::handle::Handle;
use crate::ip::IpAddr;
use crate::neighbour::add::NeighbourAddRequest;
use crate::neighbour::del::NeighbourDelRequest;
use crate::neighbour::get::NeighbourGetRequest;
use crate::packet_route::neighbour::NeighbourMessage;

verus! {

pub struct NeighbourHandle(pub Handle);

impl NeighbourHandle {
    pub fn new(handle: Handle) -> NeighbourHandle {
        NeighbourHandle(handle)
    }

    /// Retrieve the neighbour table (equivalent to `ip neighbour show`).
    pub fn get(&self) -> NeighbourGetRequest {
        NeighbourGetRequest::new(self.0.clone())
    }

    /// Add a new IP neighbour entry (equivalent to `ip neighbour add`).
    pub fn add(&self, index: u32, destination: IpAddr) -> (r: NeighbourAddRequest)
        ensures
            !r.replace,
    {
        NeighbourAddRequest::new(self.0.clone(), index, destination)
    }

    /// Add a new bridge forwarding-database entry (equivalent to
    /// `bridge fdb add`).
    pub fn add_bridge(&self, index: u32, lla: &[u8]) -> (r: NeighbourAddRequest)
        ensures
            !r.replace,
    {
        NeighbourAddRequest::new_bridge(self.0.clone(), index, lla)
    }

    /// Delete the neighbour entry represented by the given dumped
    /// message (equivalent to `ip neighbour del`).
    pub fn del(&self, message: NeighbourMessage) -> (r: NeighbourDelRequest)
        ensures
            r.message == message,
    {
        NeighbourDelRequest::new(self.0.clone(), message)
    }
}

} // verus!
