//! Bridge VLAN table manipulation, as `bridge vlan add` does.

use vstd::prelude::*;
use crate::ip::AddressFamily;
use crate::link::builder::LinkMessageBuilder;
use crate::packet_route::link::{
    AfSpecBridge, BridgeFlag, BridgeVlanInfo, BridgeVlanInfoFlags, LinkAttribute, LinkHeader,
    BRIDGE_VLAN_INFO_RANGE_BEGIN, BRIDGE_VLAN_INFO_RANGE_END,
};

verus! {

/// The extra attributes after one bridge AF-spec entry is appended: the
/// first `AfSpecBridge` attribute absorbs it; without one, a fresh
/// attribute carrying just this entry is appended.
pub open spec fn spec_af_spec_appended(
    pre: Seq<LinkAttribute>,
    post: Seq<LinkAttribute>,
    entry: AfSpecBridge,
) -> bool {
    if forall|j: int| 0 <= j < pre.len() ==> !(#[trigger] pre[j] matches LinkAttribute::AfSpecBridge(_)) {
        &&& post.len() == pre.len() + 1
        &&& post.take(pre.len() as int) == pre
        &&& (post.last() matches LinkAttribute::AfSpecBridge(v) && v@ == seq![entry])
    } else {
        exists|i: int|
            {
                &&& 0 <= i < pre.len()
                &&& (#[trigger] pre[i] matches LinkAttribute::AfSpecBridge(_))
                &&& (forall|j: int|
                    0 <= j < i ==> !(#[trigger] pre[j] matches LinkAttribute::AfSpecBridge(_)))
                &&& post.len() == pre.len()
                &&& (forall|j: int| 0 <= j < pre.len() && j != i ==> post[j] == #[trigger] pre[j])
                &&& (pre[i] matches LinkAttribute::AfSpecBridge(v0) && (post[i] matches
                LinkAttribute::AfSpecBridge(v) && v@ == v0@.push(entry)))
            }
    }
}

/// Represents the VLAN table of a bridge or of one of its ports.
#[derive(Debug)]
pub struct LinkBridgeVlan;

impl LinkBridgeVlan {
    /// A builder addressing the port with the given index, with the
    /// bridge address family set.
    pub fn new(port_index: u32) -> (r: LinkMessageBuilder<LinkBridgeVlan>)
        ensures
            r.header == (LinkHeader {
                index: port_index,
                interface_family: AddressFamily::Bridge,
                ..LinkHeader::spec_default()
            }),
            r.spec_no_info(),
            r.extra_attributes@ == Seq::<LinkAttribute>::empty(),
    {
        LinkMessageBuilder::<LinkBridgeVlan>::default().index(port_index).interface_family(
            AddressFamily::Bridge,
        )
    }
}

impl LinkMessageBuilder<LinkBridgeVlan> {
    /// Append one entry to the bridge `AF_SPEC` attribute, creating the
    /// attribute if no attribute of that kind exists yet.
    pub fn append_af_spec(self, entry: AfSpecBridge) -> (r: Self)
        ensures
            r.spec_same_but_attributes(self),
            spec_af_spec_appended(self.extra_attributes@, r.extra_attributes@, entry),
    {
        let mut ret = self;
        let ghost pre = ret.extra_attributes@;
        let n: usize = ret.extra_attributes.len();
        let mut i: usize = 0;
        let mut found: bool = false;
        while i < n
            invariant
                n == ret.extra_attributes@.len(),
                i <= n,
                ret.spec_same_but_attributes(self),
                found ==> spec_af_spec_appended(pre, ret.extra_attributes@, entry),
                found ==> i == n,
                !found ==> {
                    &&& ret.extra_attributes@ == pre
                    &&& forall|j: int|
                        0 <= j < i ==> !(#[trigger] ret.extra_attributes@[j] matches
                        LinkAttribute::AfSpecBridge(_))
                },
            decreases n - i,
        {
            let is_af_spec = matches!(&ret.extra_attributes[i], LinkAttribute::AfSpecBridge(_));
            if is_af_spec {
                let ghost idx = i as int;
                // Take the attribute out, grow its entry list, and put
                // it back in place.
                let attr = ret.extra_attributes.remove(i);
                match attr {
                    LinkAttribute::AfSpecBridge(mut specs) => {
                        specs.push(entry);
                        ret.extra_attributes.insert(i, LinkAttribute::AfSpecBridge(specs));
                    },
                    other => {
                        ret.extra_attributes.insert(i, other);
                    },
                }
                proof {
                    assert(pre[idx] matches LinkAttribute::AfSpecBridge(_));
                    assert forall|j: int| 0 <= j < pre.len() && j != idx implies ret
                        .extra_attributes@[j] == #[trigger] pre[j] by {
                        pre.remove_ensures(idx);
                        assert(pre.remove(idx).insert(
                            idx,
                            ret.extra_attributes@[idx],
                        ) =~= ret.extra_attributes@);
                    }
                    assert(spec_af_spec_appended(pre, ret.extra_attributes@, entry));
                }
                found = true;
                i = n;
            } else {
                i += 1;
            }
        }
        if !found {
            let mut specs: Vec<AfSpecBridge> = Vec::new();
            specs.push(entry);
            proof {
                assert(specs@ =~= seq![entry]);
            }
            ret.extra_attributes.push(LinkAttribute::AfSpecBridge(specs));
            proof {
                assert(ret.extra_attributes@.take(pre.len() as int) =~= pre);
            }
        }
        ret
    }

    /// Add one VLAN entry with the given flags.
    pub fn vlan(self, vid: u16, flags: BridgeVlanInfoFlags) -> (r: Self)
        ensures
            r.spec_same_but_attributes(self),
            spec_af_spec_appended(
                self.extra_attributes@,
                r.extra_attributes@,
                AfSpecBridge::VlanInfo(BridgeVlanInfo { vid, flags }),
            ),
    {
        self.append_af_spec(AfSpecBridge::VlanInfo(BridgeVlanInfo { vid, flags }))
    }

    /// Add the start of a VLAN range: the `RangeBegin` flag is added to
    /// `flags` automatically.
    pub fn vlan_range_start(self, vid: u16, flags: BridgeVlanInfoFlags) -> (r: Self)
        ensures
            r.spec_same_but_attributes(self),
            spec_af_spec_appended(
                self.extra_attributes@,
                r.extra_attributes@,
                AfSpecBridge::VlanInfo(
                    BridgeVlanInfo {
                        vid,
                        flags: BridgeVlanInfoFlags {
                            bits: flags.bits | BRIDGE_VLAN_INFO_RANGE_BEGIN,
                        },
                    },
                ),
            ),
    {
        self.vlan(vid, BridgeVlanInfoFlags { bits: flags.bits | BRIDGE_VLAN_INFO_RANGE_BEGIN })
    }

    /// Add the end of a VLAN range: the `RangeEnd` flag is added to
    /// `flags` automatically.
    pub fn vlan_range_end(self, vid: u16, flags: BridgeVlanInfoFlags) -> (r: Self)
        ensures
            r.spec_same_but_attributes(self),
            spec_af_spec_appended(
                self.extra_attributes@,
                r.extra_attributes@,
                AfSpecBridge::VlanInfo(
                    BridgeVlanInfo {
                        vid,
                        flags: BridgeVlanInfoFlags {
                            bits: flags.bits | BRIDGE_VLAN_INFO_RANGE_END,
                        },
                    },
                ),
            ),
    {
        self.vlan(vid, BridgeVlanInfoFlags { bits: flags.bits | BRIDGE_VLAN_INFO_RANGE_END })
    }

    /// Change the VLAN table of the bridge itself, not of a port: the
    /// `self` argument of `bridge vlan add dev br0 vid 11 self`.
    pub fn bridge_self(self) -> (r: Self)
        ensures
            r.spec_same_but_attributes(self),
            spec_af_spec_appended(
                self.extra_attributes@,
                r.extra_attributes@,
                AfSpecBridge::Flags(BridgeFlag::LowerDev),
            ),
    {
        self.append_af_spec(AfSpecBridge::Flags(BridgeFlag::LowerDev))
    }
}

} // verus!
