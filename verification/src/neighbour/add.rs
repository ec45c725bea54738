//! Creating a neighbour table entry, as `ip neighbour add` does.

use vstd::prelude::*;
use crate::handle::Handle;
use crate::ip::{AddressFamily, IpAddr};
use crate::packet_route::message::RouteNetlinkMessage;
use crate::packet_route::neighbour::{
    NeighbourAddress, NeighbourAttribute, NeighbourFlags, NeighbourHeader, NeighbourMessage,
    NeighbourState,
};
use crate::packet_route::route::RouteType;
use vstd::slice::slice_to_vec;
use crate::proto::{
    NetlinkRequest, NLM_F_ACK, NLM_F_CREATE, NLM_F_EXCL, NLM_F_REPLACE, NLM_F_REQUEST,
};

verus! {

/// The wire form of a neighbour's IP address.
pub open spec fn spec_neighbour_address(address: IpAddr) -> NeighbourAddress {
    match address {
        IpAddr::V4(v4) => NeighbourAddress::Inet(v4),
        IpAddr::V6(v6) => NeighbourAddress::Inet6(v6),
    }
}

/// The attribute list after the link-layer address is set: the first
/// `LinkLocalAddress` attribute is replaced; without one, a fresh
/// attribute is appended.
pub open spec fn spec_lla_set(
    pre: Seq<NeighbourAttribute>,
    post: Seq<NeighbourAttribute>,
    bytes: Seq<u8>,
) -> bool {
    if forall|j: int|
        0 <= j < pre.len() ==> !(#[trigger] pre[j] matches NeighbourAttribute::LinkLocalAddress(
            _,
        )) {
        &&& post.len() == pre.len() + 1
        &&& post.take(pre.len() as int) == pre
        &&& (post.last() matches NeighbourAttribute::LinkLocalAddress(v) && v@ == bytes)
    } else {
        exists|i: int|
            {
                &&& 0 <= i < pre.len()
                &&& (#[trigger] pre[i] matches NeighbourAttribute::LinkLocalAddress(_))
                &&& (forall|j: int|
                    0 <= j < i ==> !(#[trigger] pre[j] matches
                    NeighbourAttribute::LinkLocalAddress(_)))
                &&& post.len() == pre.len()
                &&& (forall|j: int| 0 <= j < pre.len() && j != i ==> post[j] == #[trigger] pre[j])
                &&& (post[i] matches NeighbourAttribute::LinkLocalAddress(v) && v@ == bytes)
            }
    }
}

/// The attribute list after the destination is set: the first
/// `Destination` attribute is replaced; without one, a fresh attribute
/// is appended.
pub open spec fn spec_destination_set(
    pre: Seq<NeighbourAttribute>,
    post: Seq<NeighbourAttribute>,
    address: NeighbourAddress,
) -> bool {
    if forall|j: int|
        0 <= j < pre.len() ==> !(#[trigger] pre[j] matches NeighbourAttribute::Destination(_)) {
        &&& post.len() == pre.len() + 1
        &&& post.take(pre.len() as int) == pre
        &&& post.last() == NeighbourAttribute::Destination(address)
    } else {
        exists|i: int|
            {
                &&& 0 <= i < pre.len()
                &&& (#[trigger] pre[i] matches NeighbourAttribute::Destination(_))
                &&& (forall|j: int|
                    0 <= j < i ==> !(#[trigger] pre[j] matches NeighbourAttribute::Destination(
                        _,
                    )))
                &&& post.len() == pre.len()
                &&& (forall|j: int| 0 <= j < pre.len() && j != i ==> post[j] == #[trigger] pre[j])
                &&& post[i] == NeighbourAttribute::Destination(address)
            }
    }
}

/// A request to create a new neighbour cache entry. This is equivalent
/// to the `ip neighbour add` command.
pub struct NeighbourAddRequest {
    pub handle: Handle,
    pub message: NeighbourMessage,
    pub replace: bool,
}

impl NeighbourAddRequest {
    /// A fresh IP neighbour entry on the interface with the given
    /// index: family from the destination address, state PERMANENT,
    /// kind unspecified.
    pub fn new(handle: Handle, index: u32, destination: IpAddr) -> (r: Self)
        ensures
            r.message.header == (NeighbourHeader {
                family: if destination is V4 {
                    AddressFamily::Inet
                } else {
                    AddressFamily::Inet6
                },
                ifindex: index,
                state: NeighbourState::Permanent,
                flags: NeighbourFlags { bits: 0 },
                kind: RouteType::Unspec,
            }),
            r.message.attributes@ == seq![
                NeighbourAttribute::Destination(spec_neighbour_address(destination)),
            ],
            !r.replace,
    {
        let mut message = NeighbourMessage::new();
        message.header.family = match destination {
            IpAddr::V4(_) => AddressFamily::Inet,
            IpAddr::V6(_) => AddressFamily::Inet6,
        };
        message.header.ifindex = index;
        message.header.state = NeighbourState::Permanent;
        message.header.kind = RouteType::Unspec;
        let address = match destination {
            IpAddr::V4(v4) => NeighbourAddress::Inet(v4),
            IpAddr::V6(v6) => NeighbourAddress::Inet6(v6),
        };
        message.attributes.push(NeighbourAttribute::Destination(address));
        proof {
            assert(message.attributes@ =~= seq![
                NeighbourAttribute::Destination(spec_neighbour_address(destination)),
            ]);
        }
        NeighbourAddRequest { handle, message, replace: false }
    }

    /// A fresh bridge FDB entry on the interface with the given index:
    /// bridge family, target carried as a link-layer address.
    pub fn new_bridge(handle: Handle, index: u32, lla: &[u8]) -> (r: Self)
        ensures
            r.message.header == (NeighbourHeader {
                family: AddressFamily::Bridge,
                ifindex: index,
                state: NeighbourState::Permanent,
                flags: NeighbourFlags { bits: 0 },
                kind: RouteType::Unspec,
            }),
            r.message.attributes@.len() == 1,
            r.message.attributes@[0] matches NeighbourAttribute::LinkLocalAddress(v) && v@
                == lla@,
            !r.replace,
    {
        let mut message = NeighbourMessage::new();
        message.header.family = AddressFamily::Bridge;
        message.header.ifindex = index;
        message.header.state = NeighbourState::Permanent;
        message.header.kind = RouteType::Unspec;
        message.attributes.push(NeighbourAttribute::LinkLocalAddress(slice_to_vec(lla)));
        NeighbourAddRequest { handle, message, replace: false }
    }

    /// Set the state of the neighbour cache entry.
    pub fn state(self, state: NeighbourState) -> (r: Self)
        ensures
            r.message.header == (NeighbourHeader { state, ..self.message.header }),
            r.message.attributes@ == self.message.attributes@,
            r.replace == self.replace,
    {
        let mut ret = self;
        ret.message.header.state = state;
        ret
    }

    /// Set the `NTF_*` flags of the neighbour cache entry.
    pub fn flags(self, flags: NeighbourFlags) -> (r: Self)
        ensures
            r.message.header == (NeighbourHeader { flags, ..self.message.header }),
            r.message.attributes@ == self.message.attributes@,
            r.replace == self.replace,
    {
        let mut ret = self;
        ret.message.header.flags = flags;
        ret
    }

    /// Set the kind of the neighbour cache entry.
    pub fn kind(self, kind: RouteType) -> (r: Self)
        ensures
            r.message.header == (NeighbourHeader { kind, ..self.message.header }),
            r.message.attributes@ == self.message.attributes@,
            r.replace == self.replace,
    {
        let mut ret = self;
        ret.message.header.kind = kind;
        ret
    }

    /// Set the entry's link-layer address, replacing an earlier one.
    pub fn link_local_address(self, addr: &[u8]) -> (r: Self)
        ensures
            r.message.header == self.message.header,
            spec_lla_set(self.message.attributes@, r.message.attributes@, addr@),
            r.replace == self.replace,
    {
        let mut ret = self;
        let ghost pre = ret.message.attributes@;
        let n: usize = ret.message.attributes.len();
        let mut i: usize = 0;
        let mut found: bool = false;
        while i < n
            invariant
                n == ret.message.attributes@.len(),
                i <= n,
                ret.message.header == self.message.header,
                ret.replace == self.replace,
                found ==> spec_lla_set(pre, ret.message.attributes@, addr@),
                found ==> i == n,
                !found ==> {
                    &&& ret.message.attributes@ == pre
                    &&& forall|j: int|
                        0 <= j < i ==> !(#[trigger] ret.message.attributes@[j] matches
                        NeighbourAttribute::LinkLocalAddress(_))
                },
            decreases n - i,
        {
            let hit = matches!(
                &ret.message.attributes[i],
                NeighbourAttribute::LinkLocalAddress(_)
            );
            if hit {
                let ghost idx = i as int;
                let taken = ret.message.attributes.remove(i);
                let value = NeighbourAttribute::LinkLocalAddress(slice_to_vec(addr));
                let ghost inserted = value;
                ret.message.attributes.insert(i, value);
                let _ = taken;
                proof {
                    pre.remove_ensures(idx);
                    pre.remove(idx).insert_ensures(idx, inserted);
                    assert forall|j: int| 0 <= j < pre.len() && j != idx implies ret.message
                        .attributes@[j] == #[trigger] pre[j] by {
                        if j > idx {
                            assert(pre.remove(idx)[j - 1] == pre[j]);
                        }
                    }
                    assert(spec_lla_set(pre, ret.message.attributes@, addr@));
                }
                found = true;
                i = n;
            } else {
                i += 1;
            }
        }
        if !found {
            ret.message.attributes.push(NeighbourAttribute::LinkLocalAddress(slice_to_vec(addr)));
            proof {
                assert(ret.message.attributes@.take(pre.len() as int) =~= pre);
            }
        }
        ret
    }

    /// Set the entry's destination address, replacing an earlier one.
    pub fn destination(self, addr: IpAddr) -> (r: Self)
        ensures
            r.message.header == self.message.header,
            spec_destination_set(
                self.message.attributes@,
                r.message.attributes@,
                spec_neighbour_address(addr),
            ),
            r.replace == self.replace,
    {
        let ghost target = spec_neighbour_address(addr);
        let mut ret = self;
        let ghost pre = ret.message.attributes@;
        let n: usize = ret.message.attributes.len();
        let mut i: usize = 0;
        let mut found: bool = false;
        while i < n
            invariant
                n == ret.message.attributes@.len(),
                i <= n,
                ret.message.header == self.message.header,
                ret.replace == self.replace,
                target == spec_neighbour_address(addr),
                found ==> spec_destination_set(pre, ret.message.attributes@, target),
                found ==> i == n,
                !found ==> {
                    &&& ret.message.attributes@ == pre
                    &&& forall|j: int|
                        0 <= j < i ==> !(#[trigger] ret.message.attributes@[j] matches
                        NeighbourAttribute::Destination(_))
                },
            decreases n - i,
        {
            let hit = matches!(&ret.message.attributes[i], NeighbourAttribute::Destination(_));
            if hit {
                let ghost idx = i as int;
                let taken = ret.message.attributes.remove(i);
                let value = neighbour_address(addr);
                ret.message.attributes.insert(i, NeighbourAttribute::Destination(value));
                let _ = taken;
                proof {
                    pre.remove_ensures(idx);
                    pre.remove(idx).insert_ensures(idx, NeighbourAttribute::Destination(target));
                    assert(NeighbourAttribute::Destination(value) == NeighbourAttribute::Destination(target));
                    assert forall|j: int| 0 <= j < pre.len() && j != idx implies ret.message
                        .attributes@[j] == #[trigger] pre[j] by {
                        if j > idx {
                            assert(pre.remove(idx)[j - 1] == pre[j]);
                        }
                    }
                    assert(ret.message.attributes@[idx] == NeighbourAttribute::Destination(
                        target,
                    ));
                    assert(spec_destination_set(pre, ret.message.attributes@, target));
                }
                found = true;
                i = n;
            } else {
                i += 1;
            }
        }
        if !found {
            let value = neighbour_address(addr);
            ret.message.attributes.push(NeighbourAttribute::Destination(value));
            proof {
                assert(ret.message.attributes@.take(pre.len() as int) =~= pre);
            }
        }
        ret
    }

    /// Replace an existing matching neighbour instead of failing on it.
    pub fn replace(self) -> (r: Self)
        ensures
            r.message == self.message,
            r.replace,
    {
        NeighbourAddRequest { replace: true, ..self }
    }

    /// The wire request this operation sends: a `NewNeighbour` message
    /// with REQUEST|ACK|CREATE and either EXCL or REPLACE.
    pub fn into_request(self) -> (r: NetlinkRequest)
        ensures
            r.message == RouteNetlinkMessage::NewNeighbour(self.message),
            r.flags == NLM_F_REQUEST | NLM_F_ACK | (if self.replace {
                NLM_F_REPLACE
            } else {
                NLM_F_EXCL
            }) | NLM_F_CREATE,
    {
        let replace: u16 = if self.replace {
            NLM_F_REPLACE
        } else {
            NLM_F_EXCL
        };
        NetlinkRequest {
            message: RouteNetlinkMessage::NewNeighbour(self.message),
            flags: NLM_F_REQUEST | NLM_F_ACK | replace | NLM_F_CREATE,
        }
    }
}

/// Build the wire form of a neighbour's IP address.
pub fn neighbour_address(address: IpAddr) -> (r: NeighbourAddress)
    ensures
        r == spec_neighbour_address(address),
{
    match address {
        IpAddr::V4(v4) => NeighbourAddress::Inet(v4),
        IpAddr::V6(v6) => NeighbourAddress::Inet6(v6),
    }
}

} // verus!
