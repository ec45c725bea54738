//! The nexthop sub-handle: entry points for nexthop operations.

use vstd::prelude::*;
use crate::handle::Handle;
use crate::nexthop::add::NexthopAddRequest;
use crate::nexthop::del::NexthopDelRequest;
use crate::nexthop::get::NexthopGetRequest;
use crate::packet_route::nexthop::{NexthopAttribute, NexthopMessage};

verus! {

pub struct NexthopHandle(pub Handle);

impl NexthopHandle {
    pub fn new(handle: Handle) -> NexthopHandle {
        NexthopHandle(handle)
    }

    /// List nexthops (equivalent to `ip nexthop show`).
    pub fn get(&self) -> NexthopGetRequest {
        NexthopGetRequest::new(self.0.clone())
    }

    /// Add a nexthop (equivalent to `ip nexthop add`).
    pub fn add(&self, message: NexthopMessage) -> (r: NexthopAddRequest)
        ensures
            r.message == message,
            !r.replace,
    {
        NexthopAddRequest::new(self.0.clone(), message)
    }

    /// Delete the nexthop with the given id (equivalent to
    /// `ip nexthop del`).
    pub fn del(&self, id: u32) -> (r: NexthopDelRequest)
        ensures
            r.message.nlas@ == seq![NexthopAttribute::Id(id)],
    {
        NexthopDelRequest::new(self.0.clone(), id)
    }
}

} // verus!
