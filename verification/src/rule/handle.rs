//! The rule sub-handle: entry points for policy rule operations.

use vstd::prelude::*;
use crate::handle::Handle;
use crate::packet_route::rule::RuleMessage;
use crate::rule::add::RuleAddRequest;
use crate::rule::del::RuleDelRequest;
use crate::rule::get::RuleGetRequest;
use crate::route::IpVersion;

verus! {

pub struct RuleHandle(pub Handle);

impl RuleHandle {
    pub fn new(handle: Handle) -> RuleHandle {
        RuleHandle(handle)
    }

    /// Retrieve the rules of one IP version (equivalent to
    /// `ip rule show`).
    pub fn get(&self, ip_version: IpVersion) -> RuleGetRequest {
        RuleGetRequest::new(self.0.clone(), ip_version)
    }

    /// Add a rule (equivalent to `ip rule add`).
    pub fn add(&self, ip_version: IpVersion) -> (r: RuleAddRequest)
        ensures
            !r.replace,
    {
        RuleAddRequest::new(self.0.clone(), ip_version)
    }

    /// Delete the rule represented by the given dumped message
    /// (equivalent to `ip rule del`).
    pub fn del(&self, message: RuleMessage) -> (r: RuleDelRequest)
        ensures
            r.message == message,
    {
        RuleDelRequest::new(self.0.clone(), message)
    }
}

} // verus!
