//! Traffic-control messages: qdiscs, filters, classes, chains and
//! standalone actions.

use vstd::prelude::*;
use crate::ip::AddressFamily;
use crate::packet_route::link::DefaultNla;

verus! {

/// The interface index that selects a shared block instead of a device.
pub const TCM_IFINDEX_MAGIC_BLOCK: u32 = 0xffff_ffff;

/// The minor of the ingress pseudo-parent.
pub const TC_H_MIN_INGRESS: u16 = 0xfff2;
/// The minor of the egress pseudo-parent.
pub const TC_H_MIN_EGRESS: u16 = 0xfff3;

/// A 32-bit traffic-control handle split into its major and minor parts.
#[derive(Clone, Copy, Debug, PartialEq, Eq, Structural)]
pub struct TcHandle {
    pub major: u16,
    pub minor: u16,
}

impl TcHandle {
    /// `TC_H_UNSPEC`.
    pub fn unspec() -> (r: TcHandle)
        ensures
            r == (TcHandle { major: 0u16, minor: 0u16 }),
    {
        TcHandle { major: 0, minor: 0 }
    }

    /// `TC_H_ROOT`: attach at the root of the device.
    pub fn root() -> (r: TcHandle)
        ensures
            r == (TcHandle { major: 0xffffu16, minor: 0xffffu16 }),
    {
        TcHandle { major: 0xffff, minor: 0xffff }
    }

    /// `TC_H_INGRESS`: the ingress pseudo-qdisc.
    pub fn ingress() -> (r: TcHandle)
        ensures
            r == (TcHandle { major: 0xffffu16, minor: 0xfff1u16 }),
    {
        TcHandle { major: 0xffff, minor: 0xfff1 }
    }

    /// Split a raw 32-bit handle into major and minor.
    pub open spec fn spec_from_u32(v: u32) -> TcHandle {
        TcHandle { major: (v >> 16) as u16, minor: (v & 0xffff) as u16 }
    }

    pub fn from_u32(v: u32) -> (r: TcHandle)
        ensures
            r == TcHandle::spec_from_u32(v),
    {
        TcHandle { major: (v >> 16) as u16, minor: (v & 0xffff) as u16 }
    }

    /// The raw 32-bit value of the handle.
    pub open spec fn spec_to_u32(self) -> u32 {
        ((self.major as u32) << 16 | (self.minor as u32)) as u32
    }

    pub fn to_u32(self) -> (r: u32)
        ensures
            r == self.spec_to_u32(),
    {
        (self.major as u32) << 16 | (self.minor as u32)
    }
}

/// The fixed header of a qdisc/filter/class/chain message.
#[derive(Clone, Copy, Debug, PartialEq, Eq, Structural)]
pub struct TcHeader {
    pub family: AddressFamily,
    pub index: i32,
    pub handle: TcHandle,
    pub parent: TcHandle,
    pub info: u32,
}

impl TcHeader {
    pub open spec fn spec_default() -> TcHeader {
        TcHeader {
            family: AddressFamily::Unspec,
            index: 0,
            handle: TcHandle { major: 0, minor: 0 },
            parent: TcHandle { major: 0, minor: 0 },
            info: 0,
        }
    }

    pub fn new() -> (r: TcHeader)
        ensures
            r == TcHeader::spec_default(),
    {
        TcHeader {
            family: AddressFamily::Unspec,
            index: 0,
            handle: TcHandle::unspec(),
            parent: TcHandle::unspec(),
            info: 0,
        }
    }
}

/// `TC_U32_TERMINAL` bit of the u32 selector flags.
pub const TC_U32_SELECTOR_FLAG_TERMINAL: u8 = 0x1;

/// One match key of the u32 classifier.
#[derive(Clone, Copy, Debug, PartialEq, Eq, Structural)]
pub struct TcU32Key {
    pub mask: u32,
    pub val: u32,
    pub off: i32,
    pub offmask: i32,
}

impl TcU32Key {
    pub open spec fn spec_is_default(self) -> bool {
        self == (TcU32Key { mask: 0u32, val: 0u32, off: 0i32, offmask: 0i32 })
    }

    pub fn new() -> (r: TcU32Key)
        ensures
            r.spec_is_default(),
    {
        TcU32Key { mask: 0, val: 0, off: 0, offmask: 0 }
    }
}

/// The selector of the u32 classifier.
#[derive(Clone, Debug, PartialEq, Eq)]
pub struct TcU32Selector {
    pub flags: u8,
    pub offshift: u8,
    pub nkeys: u8,
    pub offmask: u16,
    pub off: u16,
    pub offoff: i16,
    pub hoff: i16,
    pub hmask: u32,
    pub keys: Vec<TcU32Key>,
}

impl TcU32Selector {
    pub open spec fn spec_is_default(self) -> bool {
        &&& self.flags == 0
        &&& self.offshift == 0
        &&& self.nkeys == 0
        &&& self.offmask == 0
        &&& self.off == 0
        &&& self.offoff == 0
        &&& self.hoff == 0
        &&& self.hmask == 0
        &&& self.keys@ == Seq::<TcU32Key>::empty()
    }

    pub fn new() -> (r: TcU32Selector)
        ensures
            r.spec_is_default(),
    {
        TcU32Selector {
            flags: 0,
            offshift: 0,
            nkeys: 0,
            offmask: 0,
            off: 0,
            offoff: 0,
            hoff: 0,
            hmask: 0,
            keys: Vec::new(),
        }
    }
}

/// What a matched packet is subjected to (`TC_ACT_*`).
#[derive(Clone, Copy, Debug, PartialEq, Eq, Structural)]
pub enum TcActionType {
    Unspec,
    /// `TC_ACT_OK`: accept the packet.
    Accept,
    Reclassify,
    Shot,
    Pipe,
    Stolen,
    Queued,
    Repeat,
    Redirect,
    Trap,
    Other(i32),
}

/// The generic parameter block every action carries.
#[derive(Clone, Copy, Debug, PartialEq, Eq, Structural)]
pub struct TcActionGeneric {
    pub index: u32,
    pub capab: u32,
    pub action: TcActionType,
    pub refcnt: i32,
    pub bindcnt: i32,
}

impl TcActionGeneric {
    pub open spec fn spec_is_default(self) -> bool {
        self == (TcActionGeneric {
            index: 0u32,
            capab: 0u32,
            action: TcActionType::Unspec,
            refcnt: 0i32,
            bindcnt: 0i32,
        })
    }

    pub fn new() -> (r: TcActionGeneric)
        ensures
            r.spec_is_default(),
    {
        TcActionGeneric { index: 0, capab: 0, action: TcActionType::Unspec, refcnt: 0, bindcnt: 0 }
    }
}

/// The direction and kind of a mirred action.
#[derive(Clone, Copy, Debug, PartialEq, Eq, Structural)]
pub enum TcMirrorActionType {
    EgressRedir,
    EgressMirror,
    IngressRedir,
    IngressMirror,
    Other(i32),
}

/// The parameter block of a mirred (mirror/redirect) action.
#[derive(Clone, Copy, Debug, PartialEq, Eq, Structural)]
pub struct TcMirror {
    pub generic: TcActionGeneric,
    pub eaction: TcMirrorActionType,
    pub ifindex: u32,
}

impl TcMirror {
    pub open spec fn spec_is_default(self) -> bool {
        &&& self.generic.spec_is_default()
        &&& self.eaction == TcMirrorActionType::EgressRedir
        &&& self.ifindex == 0
    }

    pub fn new() -> (r: TcMirror)
        ensures
            r.spec_is_default(),
    {
        TcMirror {
            generic: TcActionGeneric::new(),
            eaction: TcMirrorActionType::EgressRedir,
            ifindex: 0,
        }
    }
}

/// One option of a mirred action.
#[derive(Clone, Debug, PartialEq, Eq)]
pub enum TcActionMirrorOption {
    Tm(Vec<u8>),
    Parms(TcMirror),
}

/// One typed option of an action.
#[derive(Clone, Debug, PartialEq, Eq)]
pub enum TcActionOption {
    Mirror(TcActionMirrorOption),
    Other(DefaultNla),
}

/// One attribute of an action (`TCA_ACT_*`).
#[derive(Clone, Debug, PartialEq, Eq)]
pub enum TcActionAttribute {
    Kind(String),
    Options(Vec<TcActionOption>),
    Index(u32),
    Other(DefaultNla),
}

/// One traffic-control action.
#[derive(Clone, Debug, PartialEq, Eq)]
pub struct TcAction {
    pub attributes: Vec<TcActionAttribute>,
}

impl TcAction {
    pub fn new() -> (r: TcAction)
        ensures
            r.attributes@ == Seq::<TcActionAttribute>::empty(),
    {
        TcAction { attributes: Vec::new() }
    }
}

/// One option of the u32 classifier (`TCA_U32_*`).
#[derive(Clone, Debug, PartialEq, Eq)]
pub enum TcFilterU32Option {
    ClassId(u32),
    Hash(u32),
    Divisor(u32),
    Selector(TcU32Selector),
    Action(Vec<TcAction>),
    Other(DefaultNla),
}

/// One typed option list of a qdisc or filter.
#[derive(Clone, Debug, PartialEq, Eq)]
pub enum TcOption {
    U32(TcFilterU32Option),
    Other(DefaultNla),
}

/// One attribute of a qdisc/filter/class message (`TCA_*`).
#[derive(Clone, Debug, PartialEq, Eq)]
pub enum TcAttribute {
    Kind(String),
    Options(Vec<TcOption>),
    Chain(u32),
    HwOffload(u8),
    Other(DefaultNla),
}

/// A whole qdisc/filter/class/chain message.
#[derive(Clone, Debug, PartialEq, Eq)]
pub struct TcMessage {
    pub header: TcHeader,
    pub attributes: Vec<TcAttribute>,
}

impl TcMessage {
    pub fn new() -> (r: TcMessage)
        ensures
            r.header == TcHeader::spec_default(),
            r.attributes@ == Seq::<TcAttribute>::empty(),
    {
        TcMessage { header: TcHeader::new(), attributes: Vec::new() }
    }

    /// A default message addressing the device with the given index.
    pub fn with_index(index: i32) -> (r: TcMessage)
        ensures
            r.header == (TcHeader { index: index, ..TcHeader::spec_default() }),
            r.attributes@ == Seq::<TcAttribute>::empty(),
    {
        let mut header = TcHeader::new();
        header.index = index;
        TcMessage { header, attributes: Vec::new() }
    }
}

/// The fixed header of a standalone action message.
#[derive(Clone, Copy, Debug, PartialEq, Eq, Structural)]
pub struct TcActionMessageHeader {
    pub family: AddressFamily,
}

/// One attribute of a standalone action message.
#[derive(Clone, Debug, PartialEq, Eq)]
pub enum TcActionMessageAttribute {
    Actions(Vec<TcAction>),
    Other(DefaultNla),
}

/// A whole standalone action message (`RTM_*ACTION`).
#[derive(Clone, Debug, PartialEq, Eq)]
pub struct TcActionMessage {
    pub header: TcActionMessageHeader,
    pub attributes: Vec<TcActionMessageAttribute>,
}

impl TcActionMessage {
    pub fn new() -> (r: TcActionMessage)
        ensures
            r.header == (TcActionMessageHeader { family: AddressFamily::Unspec }),
            r.attributes@ == Seq::<TcActionMessageAttribute>::empty(),
    {
        TcActionMessage {
            header: TcActionMessageHeader { family: AddressFamily::Unspec },
            attributes: Vec::new(),
        }
    }
}

} // verus!
