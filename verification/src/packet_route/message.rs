//! The tagged union of every route-netlink message kind this library
//! builds or receives.

use vstd::prelude::*;
use crate::packet_route::address::AddressMessage;
use crate::packet_route::link::LinkMessage;
use crate::packet_route::neighbour::NeighbourMessage;
use crate::packet_route::nexthop::NexthopMessage;
use crate::packet_route::route::RouteMessage;
use crate::packet_route::rule::RuleMessage;
use crate::packet_route::tc::{TcActionMessage, TcMessage};

verus! {

/// One typed route-netlink message, tagged with the operation it requests
/// or reports.
#[derive(Debug, PartialEq, Eq)]
pub enum RouteNetlinkMessage {
    NewLink(LinkMessage),
    DelLink(LinkMessage),
    GetLink(LinkMessage),
    SetLink(LinkMessage),
    NewLinkProp(LinkMessage),
    DelLinkProp(LinkMessage),
    NewAddress(AddressMessage),
    DelAddress(AddressMessage),
    GetAddress(AddressMessage),
    NewNeighbour(NeighbourMessage),
    GetNeighbour(NeighbourMessage),
    DelNeighbour(NeighbourMessage),
    NewRoute(RouteMessage),
    DelRoute(RouteMessage),
    GetRoute(RouteMessage),
    NewRule(RuleMessage),
    DelRule(RuleMessage),
    GetRule(RuleMessage),
    NewNexthop(NexthopMessage),
    DelNexthop(NexthopMessage),
    GetNexthop(NexthopMessage),
    NewQueueDiscipline(TcMessage),
    DelQueueDiscipline(TcMessage),
    GetQueueDiscipline(TcMessage),
    NewTrafficFilter(TcMessage),
    DelTrafficFilter(TcMessage),
    GetTrafficFilter(TcMessage),
    NewTrafficClass(TcMessage),
    GetTrafficClass(TcMessage),
    NewTrafficChain(TcMessage),
    GetTrafficChain(TcMessage),
    NewTrafficAction(TcActionMessage),
    DelTrafficAction(TcActionMessage),
    GetTrafficAction(TcActionMessage),
}

} // verus!
