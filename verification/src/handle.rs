//! The caller-facing entry point: a cheaply cloneable handle from which
//! the per-domain request builders are reached. The handle itself holds
//! no connection state; a host program pairs each built request with the
//! connection it drives.

use vstd::prelude::*;
use crate::addr::AddressHandle;
use crate::link::LinkHandle;
use crate::neighbour::NeighbourHandle;
use crate::nexthop::NexthopHandle;
use crate::route::RouteHandle;
use crate::rule::RuleHandle;
use crate::traffic_control::{
    QDiscHandle, TrafficChainHandle, TrafficClassHandle, TrafficFilterHandle,
};

verus! {

/// The request router's caller-side proxy.
#[derive(Clone, Copy, Debug, PartialEq, Eq, Structural)]
pub struct Handle {
}

impl Handle {
    pub fn new() -> Handle {
        Handle {  }
    }

    /// Create a new handle for link (interface) requests.
    pub fn link(&self) -> LinkHandle {
        LinkHandle::new(self.clone())
    }

    /// Create a new handle for address requests.
    pub fn address(&self) -> AddressHandle {
        AddressHandle::new(self.clone())
    }

    /// Create a new handle for route requests.
    pub fn route(&self) -> RouteHandle {
        RouteHandle::new(self.clone())
    }

    /// Create a new handle for policy rule requests.
    pub fn rule(&self) -> RuleHandle {
        RuleHandle::new(self.clone())
    }

    /// Create a new handle for neighbour requests.
    pub fn neighbour(&self) -> NeighbourHandle {
        NeighbourHandle::new(self.clone())
    }

    /// Create a new handle for nexthop requests.
    pub fn nexthop(&self) -> NexthopHandle {
        NexthopHandle::new(self.clone())
    }

    /// Create a new handle for queue discipline requests.
    pub fn qdisc(&self) -> QDiscHandle {
        QDiscHandle::new(self.clone())
    }

    /// Create a new handle for traffic filter requests on one
    /// interface.
    pub fn traffic_filter(&self, ifindex: i32) -> (r: TrafficFilterHandle)
        ensures
            r.ifindex == ifindex,
    {
        TrafficFilterHandle::new(self.clone(), ifindex)
    }

    /// Create a new handle for traffic class requests on one interface.
    pub fn traffic_class(&self, ifindex: i32) -> (r: TrafficClassHandle)
        ensures
            r.ifindex == ifindex,
    {
        TrafficClassHandle::new(self.clone(), ifindex)
    }

    /// Create a new handle for traffic chain requests on one interface.
    pub fn traffic_chain(&self, ifindex: i32) -> (r: TrafficChainHandle)
        ensures
            r.ifindex == ifindex,
    {
        TrafficChainHandle::new(self.clone(), ifindex)
    }
}

} // verus!
