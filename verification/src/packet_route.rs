//! This library's own model of the route-netlink message family: each
//! domain message is a header of plain values plus an ordered list of
//! typed attributes, exactly the shape the wire codec serializes.

pub mod address;
pub mod link;
pub mod message;
pub mod neighbour;
pub mod nexthop;
pub mod route;
pub mod rule;
pub mod tc;
