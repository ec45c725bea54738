//! The route-netlink multicast groups a connection can listen on, and
//! the bind-mask computation for joining them.

use vstd::prelude::*;

verus! {

/// One kernel broadcast category (`RTNLGRP_*`). The kernel numbers them
/// from 1; [`MulticastGroup::group_id`] gives each constant its number.
#[derive(Clone, Copy, Debug, PartialEq, Eq, Structural)]
pub enum MulticastGroup {
    Link,
    Notify,
    Neigh,
    Tc,
    Ipv4Ifaddr,
    Ipv4Mroute,
    Ipv4Route,
    Ipv4Rule,
    Ipv6Ifaddr,
    Ipv6Mroute,
    Ipv6Route,
    Ipv6Ifinfo,
    DecnetIfaddr,
    DecnetRoute,
    DecnetRule,
    Ipv6Prefix,
    Ipv6Rule,
    NdUseropt,
    PhonetIfaddr,
    PhonetRoute,
    Dcb,
    Ipv4Netconf,
    Ipv6Netconf,
    Mdb,
    MplsRoute,
    Nsid,
    MplsNetconf,
    Ipv4MrouteR,
    Ipv6MrouteR,
    Nexthop,
    Brvlan,
    MctpIfaddr,
    Tunnel,
    Stats,
    Ipv4Mcaddr,
    Ipv6Mcaddr,
    Ipv6Acaddr,
}

impl MulticastGroup {
    /// The kernel's number of this group; these values are external ABI
    /// and must match the kernel numbering exactly.
    pub open spec fn spec_group_id(self) -> u32 {
        match self {
            MulticastGroup::Link => 1,
            MulticastGroup::Notify => 2,
            MulticastGroup::Neigh => 3,
            MulticastGroup::Tc => 4,
            MulticastGroup::Ipv4Ifaddr => 5,
            MulticastGroup::Ipv4Mroute => 6,
            MulticastGroup::Ipv4Route => 7,
            MulticastGroup::Ipv4Rule => 8,
            MulticastGroup::Ipv6Ifaddr => 9,
            MulticastGroup::Ipv6Mroute => 10,
            MulticastGroup::Ipv6Route => 11,
            MulticastGroup::Ipv6Ifinfo => 12,
            MulticastGroup::DecnetIfaddr => 13,
            MulticastGroup::DecnetRoute => 15,
            MulticastGroup::DecnetRule => 16,
            MulticastGroup::Ipv6Prefix => 18,
            MulticastGroup::Ipv6Rule => 19,
            MulticastGroup::NdUseropt => 20,
            MulticastGroup::PhonetIfaddr => 21,
            MulticastGroup::PhonetRoute => 22,
            MulticastGroup::Dcb => 23,
            MulticastGroup::Ipv4Netconf => 24,
            MulticastGroup::Ipv6Netconf => 25,
            MulticastGroup::Mdb => 26,
            MulticastGroup::MplsRoute => 27,
            MulticastGroup::Nsid => 28,
            MulticastGroup::MplsNetconf => 29,
            MulticastGroup::Ipv4MrouteR => 30,
            MulticastGroup::Ipv6MrouteR => 31,
            MulticastGroup::Nexthop => 32,
            MulticastGroup::Brvlan => 33,
            MulticastGroup::MctpIfaddr => 34,
            MulticastGroup::Tunnel => 35,
            MulticastGroup::Stats => 36,
            MulticastGroup::Ipv4Mcaddr => 37,
            MulticastGroup::Ipv6Mcaddr => 38,
            MulticastGroup::Ipv6Acaddr => 39,
        }
    }

    /// The kernel's number of this group.
    pub fn group_id(self) -> (r: u32)
        ensures
            r == self.spec_group_id(),
            1 <= r <= 39,
    {
        match self {
            MulticastGroup::Link => 1,
            MulticastGroup::Notify => 2,
            MulticastGroup::Neigh => 3,
            MulticastGroup::Tc => 4,
            MulticastGroup::Ipv4Ifaddr => 5,
            MulticastGroup::Ipv4Mroute => 6,
            MulticastGroup::Ipv4Route => 7,
            MulticastGroup::Ipv4Rule => 8,
            MulticastGroup::Ipv6Ifaddr => 9,
            MulticastGroup::Ipv6Mroute => 10,
            MulticastGroup::Ipv6Route => 11,
            MulticastGroup::Ipv6Ifinfo => 12,
            MulticastGroup::DecnetIfaddr => 13,
            MulticastGroup::DecnetRoute => 15,
            MulticastGroup::DecnetRule => 16,
            MulticastGroup::Ipv6Prefix => 18,
            MulticastGroup::Ipv6Rule => 19,
            MulticastGroup::NdUseropt => 20,
            MulticastGroup::PhonetIfaddr => 21,
            MulticastGroup::PhonetRoute => 22,
            MulticastGroup::Dcb => 23,
            MulticastGroup::Ipv4Netconf => 24,
            MulticastGroup::Ipv6Netconf => 25,
            MulticastGroup::Mdb => 26,
            MulticastGroup::MplsRoute => 27,
            MulticastGroup::Nsid => 28,
            MulticastGroup::MplsNetconf => 29,
            MulticastGroup::Ipv4MrouteR => 30,
            MulticastGroup::Ipv6MrouteR => 31,
            MulticastGroup::Nexthop => 32,
            MulticastGroup::Brvlan => 33,
            MulticastGroup::MctpIfaddr => 34,
            MulticastGroup::Tunnel => 35,
            MulticastGroup::Stats => 36,
            MulticastGroup::Ipv4Mcaddr => 37,
            MulticastGroup::Ipv6Mcaddr => 38,
            MulticastGroup::Ipv6Acaddr => 39,
        }
    }

    /// Whether joining this group needs the explicit add-membership
    /// call: the bind mask has 32 bits, so only groups numbered up to
    /// 31 fit in it.
    pub fn need_via_add_membership(self) -> (r: bool)
        ensures
            r == (self.spec_group_id() > 31),
    {
        self.group_id() > 31
    }
}

/// The bind-time mask of a group list: bit `id - 1` for every group
/// whose number fits the 32-bit mask; the others contribute nothing and
/// must be joined by the add-membership call.
pub open spec fn spec_membership_mask(groups: Seq<MulticastGroup>) -> u32
    decreases groups.len(),
{
    if groups.len() == 0 {
        0
    } else {
        spec_membership_mask(groups.drop_last()) | (if groups.last().spec_group_id() <= 31 {
            (1u32 << ((groups.last().spec_group_id() - 1) as u32)) as u32
        } else {
            0u32
        })
    }
}

/// Compute the bind-time mask of a group list.
pub fn membership_mask(groups: &Vec<MulticastGroup>) -> (r: u32)
    ensures
        r == spec_membership_mask(groups@),
{
    let n: usize = groups.len();
    let mut mask: u32 = 0;
    let mut i: usize = 0;
    while i < n
        invariant
            n == groups@.len(),
            i <= n,
            mask == spec_membership_mask(groups@.take(i as int)),
        decreases n - i,
    {
        let id = groups[i].group_id();
        if id <= 31 {
            mask = mask | (1u32 << (id - 1));
        } else {
            proof {
                let m = mask;
                assert(m | 0u32 == m) by (bit_vector);
            }
        }
        proof {
            assert(groups@.take(i + 1).drop_last() =~= groups@.take(i as int));
            assert(groups@.take(i + 1).last() == groups@[i as int]);
        }
        i += 1;
    }
    proof {
        assert(groups@.take(n as int) =~= groups@);
    }
    mask
}

} // verus!
