//! The route sub-handle: entry points for route operations.

use vstd::prelude::*;
use crate::handle::Handle;
use crate::packet_route::route::RouteMessage;
use crate::route::add::RouteAddRequest;
use crate::route::del::RouteDelRequest;
use crate::route::get::RouteGetRequest;

verus! {

pub struct RouteHandle(pub Handle);

impl RouteHandle {
    pub fn new(handle: Handle) -> RouteHandle {
        RouteHandle(handle)
    }

    /// Retrieve the routing table entries matching the given message
    /// (equivalent to `ip route show`); the message could be built with
    /// [`crate::RouteMessageBuilder`].
    pub fn get(&self, route: RouteMessage) -> (r: RouteGetRequest)
        ensures
            r.message == route,
    {
        RouteGetRequest::new(self.0.clone(), route)
    }

    /// Add a routing table entry (equivalent to `ip route add`).
    pub fn add(&self, route: RouteMessage) -> (r: RouteAddRequest)
        ensures
            r.message == route,
            !r.replace,
    {
        RouteAddRequest::new(self.0.clone(), route)
    }

    /// Delete the given routing table entry (equivalent to
    /// `ip route del`).
    pub fn del(&self, route: RouteMessage) -> (r: RouteDelRequest)
        ensures
            r.message == route,
    {
        RouteDelRequest::new(self.0.clone(), route)
    }
}

} // verus!
