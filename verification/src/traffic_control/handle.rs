//! The traffic-control sub-handles: entry points for qdisc, class,
//! filter and chain operations.

use vstd::prelude::*;
use crate::handle::Handle;
use crate::packet_route::tc::{TcHeader, TcMessage};
use crate::proto::{NLM_F_CREATE, NLM_F_EXCL};
use crate::traffic_control::add_filter::TrafficFilterNewRequest;
use crate::traffic_control::add_qdisc::QDiscNewRequest;
use crate::traffic_control::del_filter::TrafficFilterDelRequest;
use crate::traffic_control::del_qdisc::QDiscDelRequest;
use crate::traffic_control::get::{
    QDiscGetRequest, TrafficChainGetRequest, TrafficClassGetRequest, TrafficFilterGetRequest,
};

verus! {

pub struct QDiscHandle(pub Handle);

impl QDiscHandle {
    pub fn new(handle: Handle) -> QDiscHandle {
        QDiscHandle(handle)
    }

    /// Retrieve the queue disciplines (equivalent to `tc qdisc show`).
    pub fn get(&mut self) -> (r: QDiscGetRequest)
        ensures
            r.message.header == TcHeader::spec_default(),
    {
        QDiscGetRequest::new(self.0.clone())
    }

    /// Create a queue discipline on the interface with the given index
    /// (equivalent to `tc qdisc add dev DEV`).
    pub fn add(&mut self, index: i32) -> (r: QDiscNewRequest)
        ensures
            r.message.header == (TcHeader { index, ..TcHeader::spec_default() }),
    {
        let mut message = TcMessage::with_index(index);
        QDiscNewRequest::new(self.0.clone(), message, NLM_F_EXCL | NLM_F_CREATE)
    }

    /// Delete the queue discipline of the interface with the given
    /// index (equivalent to `tc qdisc del dev DEV`).
    pub fn del(&mut self, index: i32) -> (r: QDiscDelRequest)
        ensures
            r.message.header == (TcHeader { index, ..TcHeader::spec_default() }),
    {
        let mut message = TcMessage::with_index(index);
        QDiscDelRequest::new(self.0.clone(), message)
    }
}

pub struct TrafficClassHandle {
    pub handle: Handle,
    pub ifindex: i32,
}

impl TrafficClassHandle {
    pub fn new(handle: Handle, ifindex: i32) -> (r: TrafficClassHandle)
        ensures
            r.ifindex == ifindex,
    {
        TrafficClassHandle { handle, ifindex }
    }

    /// Retrieve the traffic classes of the interface (equivalent to
    /// `tc class show dev DEV`).
    pub fn get(&mut self) -> (r: TrafficClassGetRequest)
        ensures
            r.message.header == (TcHeader { index: old(self).ifindex, ..TcHeader::spec_default() }),
    {
        TrafficClassGetRequest::new(self.handle.clone(), self.ifindex)
    }
}

pub struct TrafficFilterHandle {
    pub handle: Handle,
    pub ifindex: i32,
}

impl TrafficFilterHandle {
    pub fn new(handle: Handle, ifindex: i32) -> (r: TrafficFilterHandle)
        ensures
            r.ifindex == ifindex,
    {
        TrafficFilterHandle { handle, ifindex }
    }

    /// Retrieve the traffic filters of the interface (equivalent to
    /// `tc filter show dev DEV`).
    pub fn get(&mut self) -> (r: TrafficFilterGetRequest)
        ensures
            r.message.header == (TcHeader { index: old(self).ifindex, ..TcHeader::spec_default() }),
    {
        TrafficFilterGetRequest::new(self.handle.clone(), self.ifindex)
    }

    /// Add a traffic filter to the interface (equivalent to
    /// `tc filter add dev DEV`).
    pub fn add(&mut self) -> (r: TrafficFilterNewRequest)
        ensures
            r.message.header == (TcHeader { index: old(self).ifindex, ..TcHeader::spec_default() }),
    {
        TrafficFilterNewRequest::new(self.handle.clone(), self.ifindex, NLM_F_EXCL | NLM_F_CREATE)
    }

    /// Delete a traffic filter from the interface (equivalent to
    /// `tc filter del dev DEV`).
    pub fn del(&mut self) -> (r: TrafficFilterDelRequest)
        ensures
            r.message.header == (TcHeader { index: old(self).ifindex, ..TcHeader::spec_default() }),
    {
        TrafficFilterDelRequest::new(self.handle.clone(), self.ifindex)
    }
}

pub struct TrafficChainHandle {
    pub handle: Handle,
    pub ifindex: i32,
}

impl TrafficChainHandle {
    pub fn new(handle: Handle, ifindex: i32) -> (r: TrafficChainHandle)
        ensures
            r.ifindex == ifindex,
    {
        TrafficChainHandle { handle, ifindex }
    }

    /// Retrieve the traffic chains of the interface (equivalent to
    /// `tc chain show dev DEV`).
    pub fn get(&mut self) -> (r: TrafficChainGetRequest)
        ensures
            r.message.header == (TcHeader { index: old(self).ifindex, ..TcHeader::spec_default() }),
    {
        TrafficChainGetRequest::new(self.handle.clone(), self.ifindex)
    }
}

} // verus!
