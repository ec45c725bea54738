//! Creating a traffic filter, as `tc filter add` does, including the
//! u32 classifier and the mirred redirect shorthand.

use vstd::prelude::*;
use crate::errors::Error;
use crate::handle::Handle;
use crate::packet_route::message::RouteNetlinkMessage;
use crate::packet_route::tc::{
    TcAction, TcActionAttribute, TcActionGeneric, TcActionMirrorOption, TcActionOption,
    TcActionType, TcAttribute, TcFilterU32Option, TcHandle, TcHeader, TcMessage, TcMirror,
    TcMirrorActionType, TcOption, TcU32Key, TcU32Selector, TCM_IFINDEX_MAGIC_BLOCK,
    TC_H_MIN_EGRESS, TC_H_MIN_INGRESS, TC_U32_SELECTOR_FLAG_TERMINAL,
};
use crate::proto::{NetlinkRequest, NLM_F_ACK, NLM_F_REQUEST};

verus! {

/// Whether the message already names a filter kind.
pub open spec fn spec_has_kind(attributes: Seq<TcAttribute>) -> bool {
    exists|i: int| 0 <= i < attributes.len() && (#[trigger] attributes[i] matches TcAttribute::Kind(_))
}

/// The mirred action parameter block of the redirect shorthand: steal
/// matching packets and redirect them out of the given interface.
pub open spec fn spec_redirect_mirror(dst_index: u32) -> TcMirror {
    TcMirror {
        generic: TcActionGeneric {
            index: 0,
            capab: 0,
            action: TcActionType::Stolen,
            refcnt: 0,
            bindcnt: 0,
        },
        eaction: TcMirrorActionType::EgressRedir,
        ifindex: dst_index,
    }
}

/// A request to create a traffic filter on one interface.
pub struct TrafficFilterNewRequest {
    pub handle: Handle,
    pub message: TcMessage,
    pub flags: u16,
}

impl TrafficFilterNewRequest {
    /// A fresh request on the interface with the given index; `flags`
    /// are extra netlink header bits joined to REQUEST.
    pub fn new(handle: Handle, ifindex: i32, flags: u16) -> (r: Self)
        ensures
            r.message.header == (TcHeader { index: ifindex, ..TcHeader::spec_default() }),
            r.message.attributes@ == Seq::<TcAttribute>::empty(),
            r.flags == NLM_F_REQUEST | flags,
    {
        TrafficFilterNewRequest {
            handle,
            message: TcMessage::with_index(ifindex),
            flags: NLM_F_REQUEST | flags,
        }
    }

    /// Set the interface index. `dev` and `block` are mutually
    /// exclusive.
    pub fn index(self, index: i32) -> (r: Self)
        ensures
            r.message.header == (TcHeader { index, ..self.message.header }),
            r.message.attributes@ == self.message.attributes@,
            r.flags == self.flags,
    {
        let mut ret = self;
        ret.message.header.index = index;
        ret
    }

    /// Address a shared filter block instead of one device.
    pub fn block(self, block_index: u32) -> (r: Self)
        ensures
            r.message.header == (TcHeader {
                index: TCM_IFINDEX_MAGIC_BLOCK as i32,
                parent: TcHandle::spec_from_u32(block_index),
                ..self.message.header
            }),
            r.message.attributes@ == self.message.attributes@,
            r.flags == self.flags,
    {
        let mut ret = self;
        ret.message.header.index = TCM_IFINDEX_MAGIC_BLOCK as i32;
        ret.message.header.parent = TcHandle::from_u32(block_index);
        ret
    }

    /// Set the parent. The root, ingress and egress variants are
    /// mutually exclusive with this.
    pub fn parent(self, parent: u32) -> (r: Self)
        ensures
            r.message.header == (TcHeader {
                parent: TcHandle::spec_from_u32(parent),
                ..self.message.header
            }),
            r.message.attributes@ == self.message.attributes@,
            r.flags == self.flags,
    {
        let mut ret = self;
        ret.message.header.parent = TcHandle::from_u32(parent);
        ret
    }

    /// Set the parent to the root.
    pub fn root(self) -> (r: Self)
        ensures
            r.message.header == (TcHeader {
                parent: TcHandle { major: 0xffffu16, minor: 0xffffu16 },
                ..self.message.header
            }),
            r.message.attributes@ == self.message.attributes@,
            r.flags == self.flags,
    {
        let mut ret = self;
        ret.message.header.parent = TcHandle::root();
        ret
    }

    /// Set the parent to ingress.
    pub fn ingress(self) -> (r: Self)
        ensures
            r.message.header == (TcHeader {
                parent: TcHandle { major: 0xffffu16, minor: TC_H_MIN_INGRESS },
                ..self.message.header
            }),
            r.message.attributes@ == self.message.attributes@,
            r.flags == self.flags,
    {
        let mut ret = self;
        ret.message.header.parent = TcHandle { major: 0xffff, minor: TC_H_MIN_INGRESS };
        ret
    }

    /// Set the parent to egress.
    pub fn egress(self) -> (r: Self)
        ensures
            r.message.header == (TcHeader {
                parent: TcHandle { major: 0xffffu16, minor: TC_H_MIN_EGRESS },
                ..self.message.header
            }),
            r.message.attributes@ == self.message.attributes@,
            r.flags == self.flags,
    {
        let mut ret = self;
        ret.message.header.parent = TcHandle { major: 0xffff, minor: TC_H_MIN_EGRESS };
        ret
    }

    /// Set the priority (`priority PRIO` / `pref PRIO`): the major half
    /// of the info word.
    pub fn priority(self, priority: u16) -> (r: Self)
        ensures
            r.message.header == (TcHeader {
                info: (TcHandle { major: priority, minor: priority }).spec_to_u32(),
                ..self.message.header
            }),
            r.message.attributes@ == self.message.attributes@,
            r.flags == self.flags,
    {
        let mut ret = self;
        ret.message.header.info = (TcHandle { major: priority, minor: priority }).to_u32();
        ret
    }

    /// Set the protocol (`protocol PROT`): the minor half of the info
    /// word. The conventional default is `ETH_P_ALL`, `0x0003`.
    pub fn protocol(self, protocol: u16) -> (r: Self)
        ensures
            r.message.header == (TcHeader {
                info: (TcHandle {
                    major: (self.message.header.info >> 16) as u16,
                    minor: protocol,
                }).spec_to_u32(),
                ..self.message.header
            }),
            r.message.attributes@ == self.message.attributes@,
            r.flags == self.flags,
    {
        let mut ret = self;
        ret.message.header.info = (TcHandle {
            major: (ret.message.header.info >> 16) as u16,
            minor: protocol,
        }).to_u32();
        ret
    }

    /// Attach a u32 classifier (`tc filter ... u32`) with the given
    /// options. A message whose kind is already set is rejected before
    /// sending.
    pub fn u32(self, options: Vec<TcFilterU32Option>) -> (r: Result<Self, Error>)
        ensures
            match r {
                Ok(b) => {
                    &&& !spec_has_kind(self.message.attributes@)
                    &&& b.message.header == self.message.header
                    &&& b.flags == self.flags
                    &&& b.message.attributes@.len() == self.message.attributes@.len() + 2
                    &&& b.message.attributes@.take(self.message.attributes@.len() as int)
                        == self.message.attributes@
                    &&& (b.message.attributes@[self.message.attributes@.len() as int] matches
                    TcAttribute::Kind(kind) && kind@ == "u32"@)
                    &&& (b.message.attributes@.last() matches TcAttribute::Options(opts) && opts@
                        == options@.map_values(|o: TcFilterU32Option| TcOption::U32(o)))
                },
                Err(e) => {
                    &&& spec_has_kind(self.message.attributes@)
                    &&& e is InvalidNla
                },
            },
    {
        let n: usize = self.message.attributes.len();
        let mut i: usize = 0;
        while i < n
            invariant
                n == self.message.attributes@.len(),
                i <= n,
                forall|j: int|
                    0 <= j < i ==> !(#[trigger] self.message.attributes@[j] matches
                    TcAttribute::Kind(_)),
            decreases n - i,
        {
            let hit = matches!(&self.message.attributes[i], TcAttribute::Kind(_));
            if hit {
                proof {
                    assert(self.message.attributes@[i as int] matches TcAttribute::Kind(_));
                }
                return Err(Error::InvalidNla(String::from_str("message kind has already been set.")));
            }
            i += 1;
        }
        let mut ret = self;
        let kind = String::from_str("u32");
        ret.message.attributes.push(TcAttribute::Kind(kind));
        let mut rest = options;
        let ghost all = rest@;
        let mut nla_opts: Vec<TcOption> = Vec::new();
        while rest.len() > 0
            invariant
                nla_opts@.len() + rest@.len() == all.len(),
                rest@ == all.skip(nla_opts@.len() as int),
                forall|j: int|
                    0 <= j < nla_opts@.len() ==> nla_opts@[j] == TcOption::U32(all[j]),
            decreases rest@.len(),
        {
            let ghost k = nla_opts@.len() as int;
            let option = rest.remove(0);
            proof {
                assert(all.skip(k)[0] == all[k]);
            }
            nla_opts.push(TcOption::U32(option));
            proof {
                assert(rest@ =~= all.skip(k + 1));
            }
        }
        proof {
            assert(nla_opts@ =~= all.map_values(|o: TcFilterU32Option| TcOption::U32(o)));
        }
        ret.message.attributes.push(TcAttribute::Options(nla_opts));
        proof {
            assert(ret.message.attributes@.take(self.message.attributes@.len() as int)
                =~= self.message.attributes@);
        }
        Ok(ret)
    }

    /// Redirect all matching traffic to another interface: a u32
    /// classifier matching everything, with a mirred steal-and-redirect
    /// action towards `dst_index`. The parent and protocol must be set
    /// before this. Setting a second classifier on the same request is
    /// rejected before sending.
    pub fn redirect(self, dst_index: u32) -> (r: Result<Self, Error>)
        ensures
            match r {
                Ok(b) => {
                    &&& !spec_has_kind(self.message.attributes@)
                    &&& b.message.header == self.message.header
                    &&& b.flags == self.flags
                    &&& b.message.attributes@.len() == self.message.attributes@.len() + 2
                    &&& b.message.attributes@.take(self.message.attributes@.len() as int)
                        == self.message.attributes@
                    &&& (b.message.attributes@[self.message.attributes@.len() as int] matches
                    TcAttribute::Kind(kind) && kind@ == "u32"@)
                    &&& (b.message.attributes@.last() matches TcAttribute::Options(opts)
                        && opts@.len() == 2 && (opts@[0] matches TcOption::U32(
                        TcFilterU32Option::Selector(sel),
                    ) && sel.flags == TC_U32_SELECTOR_FLAG_TERMINAL && sel.nkeys == 1
                        && sel.keys@.len() == 1 && sel.keys@[0].spec_is_default()) && (opts@[1]
                        matches TcOption::U32(TcFilterU32Option::Action(actions)) && actions@
                        .len() == 1 && actions@[0].attributes@.len() == 2 && (actions@[0]
                        .attributes@[0] matches TcActionAttribute::Kind(kind)
                        && kind@ == "mirred"@) && (actions@[0].attributes@[1] matches
                    TcActionAttribute::Options(aopts) && aopts@.len() == 1 && aopts@[0]
                        == TcActionOption::Mirror(
                        TcActionMirrorOption::Parms(spec_redirect_mirror(dst_index)),
                    ))))
                },
                Err(e) => {
                    &&& spec_has_kind(self.message.attributes@)
                    &&& e is InvalidNla
                },
            },
    {
        let mut sel_na = TcU32Selector::new();
        sel_na.flags = TC_U32_SELECTOR_FLAG_TERMINAL;
        sel_na.nkeys = 1;
        let mut keys: Vec<TcU32Key> = Vec::new();
        keys.push(TcU32Key::new());
        sel_na.keys = keys;

        let mut tc_mirror_nla = TcMirror::new();
        tc_mirror_nla.generic.action = TcActionType::Stolen;
        tc_mirror_nla.eaction = TcMirrorActionType::EgressRedir;
        tc_mirror_nla.ifindex = dst_index;
        proof {
            assert(tc_mirror_nla == spec_redirect_mirror(dst_index));
        }

        let mut action_nla = TcAction::new();
        let kind = String::from_str("mirred");
        action_nla.attributes.push(TcActionAttribute::Kind(kind));
        let mut aopts: Vec<TcActionOption> = Vec::new();
        aopts.push(TcActionOption::Mirror(TcActionMirrorOption::Parms(tc_mirror_nla)));
        action_nla.attributes.push(TcActionAttribute::Options(aopts));

        let mut actions: Vec<TcAction> = Vec::new();
        actions.push(action_nla);

        let mut u32_nla: Vec<TcFilterU32Option> = Vec::new();
        u32_nla.push(TcFilterU32Option::Selector(sel_na));
        u32_nla.push(TcFilterU32Option::Action(actions));
        let ghost built = u32_nla@;
        let r = self.u32(u32_nla);
        proof {
            if r is Ok {
                let opts = built.map_values(|o: TcFilterU32Option| TcOption::U32(o));
                assert(opts[0] == TcOption::U32(built[0]));
                assert(opts[1] == TcOption::U32(built[1]));
            }
        }
        r
    }

    /// The wire request this operation sends: a `NewTrafficFilter`
    /// message with ACK joined to the accumulated flags.
    pub fn into_request(self) -> (r: NetlinkRequest)
        ensures
            r.message == RouteNetlinkMessage::NewTrafficFilter(self.message),
            r.flags == NLM_F_ACK | self.flags,
    {
        NetlinkRequest {
            message: RouteNetlinkMessage::NewTrafficFilter(self.message),
            flags: NLM_F_ACK | self.flags,
        }
    }
}

} // verus!
