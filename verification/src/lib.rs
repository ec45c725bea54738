//! A typed, verified model of the route-netlink client protocol: message
//! builders for links, addresses, routes, neighbours, rules, nexthops and
//! traffic-control objects, the request/response correlation engine that
//! multiplexes concurrent requests over one netlink socket, and the
//! decision logic of the network-namespace manager.
//!
//! Everything here is plain computation on the crate's own data types; the
//! socket transport and the wire codec are external collaborators that a
//! host program supplies around this library.

pub mod addr;
pub mod connection;
pub mod errors;
pub mod handle;
pub mod ip;
pub mod link;
pub mod multicast;
pub mod neighbour;
pub mod nexthop;
pub mod ns;
pub mod packet_route;
pub mod proto;
pub mod route;
pub mod rule;
pub mod traffic_control;

pub use crate::addr::{
    AddressAddRequest, AddressDelRequest, AddressFilter, AddressGetRequest, AddressHandle,
    AddressMessageBuilder,
};
pub use crate::connection::{ConnectionActor, PendingEntry, RouteAction};
pub use crate::errors::Error;
pub use crate::handle::Handle;
pub use crate::ip::{AddressFamily, IpAddr, Ipv4Addr, Ipv6Addr, MplsLabel};
pub use crate::link::{
    LinkAddRequest, LinkBond, LinkBondPort, LinkBridge, LinkBridgePort, LinkBridgeVlan,
    LinkDelPropRequest, LinkDelRequest, LinkDummy, LinkGetRequest, LinkHandle, LinkIpVlan,
    LinkIpVtap, LinkMacSec, LinkMacVlan, LinkMacVtap, LinkMessageBuilder, LinkNetkit,
    LinkNewPropRequest, LinkSetRequest, LinkUnspec, LinkVeth, LinkVlan, LinkVrf, LinkVxlan,
    LinkWireguard, LinkXfrm, QosMapping,
};
pub use crate::multicast::MulticastGroup;
pub use crate::neighbour::{
    NeighbourAddRequest, NeighbourDelRequest, NeighbourGetRequest, NeighbourHandle,
};
pub use crate::nexthop::{
    NexthopAddRequest, NexthopDelRequest, NexthopGetRequest, NexthopHandle,
    NexthopMessageBuilder,
};
pub use crate::ns::{NetworkNamespace, NETNS_PATH, NONE_FS, SELF_NS_PATH};
pub use crate::proto::{NetlinkRequest, ReplyMessage, ReplyPayload};
pub use crate::route::{
    IpVersion, RouteAddRequest, RouteDelRequest, RouteGetRequest, RouteHandle,
    RouteMessageBuilder, RouteNextHopBuilder,
};
pub use crate::rule::{RuleAddRequest, RuleDelRequest, RuleGetRequest, RuleHandle};
pub use crate::traffic_control::{
    QDiscDelRequest, QDiscGetRequest, QDiscHandle, QDiscNewRequest, TrafficChainGetRequest,
    TrafficChainHandle, TrafficClassGetRequest, TrafficClassHandle, TrafficFilterDelRequest,
    TrafficFilterGetRequest, TrafficFilterHandle, TrafficFilterNewRequest,
};
