//! The generic link message builder: header flags, generic attributes,
//! and the nested link-info tree, assembled in the attribute order the
//! kernel requires.

use vstd::prelude::*;
use core::marker::PhantomData;
use crate::ip::AddressFamily;
use crate::packet_route::link::{
    InfoData, InfoKind, InfoPortData, InfoPortKind, LinkAttribute, LinkHeader, LinkInfo,
    LinkMessage, LINK_FLAG_NOARP, LINK_FLAG_PROMISC, LINK_FLAG_UP,
};

verus! {

/// One link attribute that is an `IfName` carrying the given name.
pub open spec fn spec_is_name_attribute(attribute: LinkAttribute, name: Seq<char>) -> bool {
    attribute matches LinkAttribute::IfName(n) && n@ == name
}

/// Generic interface without an interface type. Used to address an
/// existing interface by name or index, for example to attach it to a
/// controller.
#[derive(Debug)]
pub struct LinkUnspec;

impl LinkUnspec {
    /// Equal to `LinkMessageBuilder::<LinkUnspec>::default().index()`.
    pub fn new_with_index(index: u32) -> (r: LinkMessageBuilder<LinkUnspec>)
        ensures
            r.header == (LinkHeader { index, ..LinkHeader::spec_default() }),
            r.spec_no_info(),
            r.extra_attributes@ == Seq::<LinkAttribute>::empty(),
    {
        LinkMessageBuilder::<LinkUnspec>::default().index(index)
    }

    /// Equal to `LinkMessageBuilder::<LinkUnspec>::default().name()`.
    pub fn new_with_name(name: &str) -> (r: LinkMessageBuilder<LinkUnspec>)
        ensures
            r.header == LinkHeader::spec_default(),
            r.spec_no_info(),
            r.extra_attributes@.len() == 1,
            spec_is_name_attribute(r.extra_attributes@[0], name@),
    {
        let text = String::from_str(name);
        LinkMessageBuilder::<LinkUnspec>::default().name(text)
    }
}

/// Helper struct for building [`LinkMessage`]. Designed for advanced
/// use; the per-kind types wrap it.
#[derive(Debug)]
pub struct LinkMessageBuilder<T> {
    pub header: LinkHeader,
    pub info_kind: Option<InfoKind>,
    pub info_data: Option<InfoData>,
    pub port_kind: Option<InfoPortKind>,
    pub port_data: Option<InfoPortData>,
    pub extra_attributes: Vec<LinkAttribute>,
    pub _phantom: PhantomData<T>,
}

impl<T> LinkMessageBuilder<T> {
    /// No kind, data, port kind or port data set yet.
    pub open spec fn spec_no_info(self) -> bool {
        &&& self.info_kind is None
        &&& self.info_data is None
        &&& self.port_kind is None
        &&& self.port_data is None
    }

    /// Everything but the header is as in `other`.
    pub open spec fn spec_same_but_header(self, other: Self) -> bool {
        &&& self.info_kind == other.info_kind
        &&& self.info_data == other.info_data
        &&& self.port_kind == other.port_kind
        &&& self.port_data == other.port_data
        &&& self.extra_attributes@ == other.extra_attributes@
    }

    /// Everything but the extra attributes is as in `other`.
    pub open spec fn spec_same_but_attributes(self, other: Self) -> bool {
        &&& self.header == other.header
        &&& self.info_kind == other.info_kind
        &&& self.info_data == other.info_data
        &&& self.port_kind == other.port_kind
        &&& self.port_data == other.port_data
    }

    /// Everything but the port data is as in `other`.
    pub open spec fn spec_same_but_port_data(self, other: Self) -> bool {
        &&& self.header == other.header
        &&& self.info_kind == other.info_kind
        &&& self.info_data == other.info_data
        &&& self.port_kind == other.port_kind
        &&& self.extra_attributes@ == other.extra_attributes@
    }

    /// Everything but the kind-specific info data is as in `other`.
    pub open spec fn spec_same_but_info_data(self, other: Self) -> bool {
        &&& self.header == other.header
        &&& self.info_kind == other.info_kind
        &&& self.port_kind == other.port_kind
        &&& self.port_data == other.port_data
        &&& self.extra_attributes@ == other.extra_attributes@
    }

    /// A fresh builder whose link-info kind is already set.
    pub fn new_with_info_kind(info_kind: InfoKind) -> (r: Self)
        ensures
            r.header == LinkHeader::spec_default(),
            r.info_kind == Some(info_kind),
            r.info_data is None,
            r.port_kind is None,
            r.port_data is None,
            r.extra_attributes@ == Seq::<LinkAttribute>::empty(),
    {
        let mut ret = Self::default();
        ret.info_kind = Some(info_kind);
        ret
    }

    /// Set an arbitrary [`LinkHeader`].
    pub fn set_header(self, header: LinkHeader) -> (r: Self)
        ensures
            r.header == header,
            r.spec_same_but_header(self),
    {
        let mut ret = self;
        ret.header = header;
        ret
    }

    /// Append an arbitrary [`LinkAttribute`].
    pub fn append_extra_attribute(self, link_attr: LinkAttribute) -> (r: Self)
        ensures
            r.extra_attributes@ == self.extra_attributes@.push(link_attr),
            r.spec_same_but_attributes(self),
    {
        let mut ret = self;
        ret.extra_attributes.push(link_attr);
        ret
    }

    /// Set arbitrary [`InfoData`].
    pub fn set_info_data(self, info_data: InfoData) -> (r: Self)
        ensures
            r.info_data == Some(info_data),
            r.header == self.header,
            r.info_kind == self.info_kind,
            r.port_kind == self.port_kind,
            r.port_data == self.port_data,
            r.extra_attributes@ == self.extra_attributes@,
    {
        let mut ret = self;
        ret.info_data = Some(info_data);
        ret
    }

    /// Set the link up (equivalent to `ip link set dev DEV up`).
    pub fn up(self) -> (r: Self)
        ensures
            r.header == (LinkHeader {
                flags: self.header.flags | LINK_FLAG_UP,
                change_mask: self.header.change_mask | LINK_FLAG_UP,
                ..self.header
            }),
            r.spec_same_but_header(self),
    {
        let mut ret = self;
        ret.header.flags = ret.header.flags | LINK_FLAG_UP;
        ret.header.change_mask = ret.header.change_mask | LINK_FLAG_UP;
        ret
    }

    /// Set the link down (equivalent to `ip link set dev DEV down`).
    pub fn down(self) -> (r: Self)
        ensures
            r.header == (LinkHeader {
                flags: self.header.flags & !LINK_FLAG_UP,
                change_mask: self.header.change_mask | LINK_FLAG_UP,
                ..self.header
            }),
            r.spec_same_but_header(self),
    {
        let mut ret = self;
        ret.header.flags = ret.header.flags & !LINK_FLAG_UP;
        ret.header.change_mask = ret.header.change_mask | LINK_FLAG_UP;
        ret
    }

    /// Enable or disable promiscuous mode (equivalent to
    /// `ip link set dev DEV promisc on/off`).
    pub fn promiscuous(self, enable: bool) -> (r: Self)
        ensures
            r.header == (LinkHeader {
                flags: if enable {
                    self.header.flags | LINK_FLAG_PROMISC
                } else {
                    self.header.flags & !LINK_FLAG_PROMISC
                },
                change_mask: self.header.change_mask | LINK_FLAG_PROMISC,
                ..self.header
            }),
            r.spec_same_but_header(self),
    {
        let mut ret = self;
        if enable {
            ret.header.flags = ret.header.flags | LINK_FLAG_PROMISC;
        } else {
            ret.header.flags = ret.header.flags & !LINK_FLAG_PROMISC;
        }
        ret.header.change_mask = ret.header.change_mask | LINK_FLAG_PROMISC;
        ret
    }

    /// Enable or disable the ARP protocol (equivalent to
    /// `ip link set dev DEV arp on/off`).
    pub fn arp(self, enable: bool) -> (r: Self)
        ensures
            r.header == (LinkHeader {
                flags: if enable {
                    self.header.flags & !LINK_FLAG_NOARP
                } else {
                    self.header.flags | LINK_FLAG_NOARP
                },
                change_mask: self.header.change_mask | LINK_FLAG_NOARP,
                ..self.header
            }),
            r.spec_same_but_header(self),
    {
        let mut ret = self;
        if enable {
            ret.header.flags = ret.header.flags & !LINK_FLAG_NOARP;
        } else {
            ret.header.flags = ret.header.flags | LINK_FLAG_NOARP;
        }
        ret.header.change_mask = ret.header.change_mask | LINK_FLAG_NOARP;
        ret
    }

    /// Set the interface name.
    pub fn name(self, name: String) -> (r: Self)
        ensures
            r.extra_attributes@ == self.extra_attributes@.push(LinkAttribute::IfName(name)),
            r.spec_same_but_attributes(self),
    {
        self.append_extra_attribute(LinkAttribute::IfName(name))
    }

    /// Set the MTU (equivalent to `ip link set DEV mtu MTU`).
    pub fn mtu(self, mtu: u32) -> (r: Self)
        ensures
            r.extra_attributes@ == self.extra_attributes@.push(LinkAttribute::Mtu(mtu)),
            r.spec_same_but_attributes(self),
    {
        self.append_extra_attribute(LinkAttribute::Mtu(mtu))
    }

    /// Kernel index number of the interface, used for querying,
    /// modifying or deleting an existing interface.
    pub fn index(self, index: u32) -> (r: Self)
        ensures
            r.header == (LinkHeader { index, ..self.header }),
            r.spec_same_but_header(self),
    {
        let mut ret = self;
        ret.header.index = index;
        ret
    }

    /// Set the interface family of the header.
    pub fn interface_family(self, family: AddressFamily) -> (r: Self)
        ensures
            r.header == (LinkHeader { interface_family: family, ..self.header }),
            r.spec_same_but_header(self),
    {
        let mut ret = self;
        ret.header.interface_family = family;
        ret
    }

    /// Define the hardware address of the link when creating it
    /// (equivalent to `ip link add NAME address ADDRESS`).
    pub fn address(self, address: Vec<u8>) -> (r: Self)
        ensures
            r.extra_attributes@ == self.extra_attributes@.push(LinkAttribute::Address(address)),
            r.spec_same_but_attributes(self),
    {
        self.append_extra_attribute(LinkAttribute::Address(address))
    }

    /// Move this network device into the network namespace of the
    /// process with the given `pid`.
    pub fn setns_by_pid(self, pid: u32) -> (r: Self)
        ensures
            r.extra_attributes@ == self.extra_attributes@.push(LinkAttribute::NetNsPid(pid)),
            r.spec_same_but_attributes(self),
    {
        self.append_extra_attribute(LinkAttribute::NetNsPid(pid))
    }

    /// Move this network device into the network namespace behind the
    /// given file descriptor.
    pub fn setns_by_fd(self, fd: i32) -> (r: Self)
        ensures
            r.extra_attributes@ == self.extra_attributes@.push(LinkAttribute::NetNsFd(fd)),
            r.spec_same_but_attributes(self),
    {
        self.append_extra_attribute(LinkAttribute::NetNsFd(fd))
    }

    /// The physical device to operate on, by interface index (e.g. the
    /// parent interface of a VLAN).
    pub fn link(self, index: u32) -> (r: Self)
        ensures
            r.extra_attributes@ == self.extra_attributes@.push(LinkAttribute::Link(index)),
            r.spec_same_but_attributes(self),
    {
        self.append_extra_attribute(LinkAttribute::Link(index))
    }

    /// Define the controller interface index (similar to
    /// `ip link set NAME master CONTROLLER_NAME`).
    pub fn controller(self, ctrl_index: u32) -> (r: Self)
        ensures
            r.extra_attributes@ == self.extra_attributes@.push(
                LinkAttribute::Controller(ctrl_index),
            ),
            r.spec_same_but_attributes(self),
    {
        self.append_extra_attribute(LinkAttribute::Controller(ctrl_index))
    }

    /// Detach the link from its controller (equivalent to
    /// `ip link set LINK nomaster`).
    pub fn nocontroller(self) -> (r: Self)
        ensures
            r.extra_attributes@ == self.extra_attributes@.push(LinkAttribute::Controller(0)),
            r.spec_same_but_attributes(self),
    {
        self.append_extra_attribute(LinkAttribute::Controller(0))
    }

    /// Set the kind of the aggregated port being configured.
    pub fn set_port_kind(self, port_kind: InfoPortKind) -> (r: Self)
        ensures
            r.port_kind == Some(port_kind),
            r.header == self.header,
            r.info_kind == self.info_kind,
            r.info_data == self.info_data,
            r.port_data == self.port_data,
            r.extra_attributes@ == self.extra_attributes@,
    {
        let mut ret = self;
        ret.port_kind = Some(port_kind);
        ret
    }

    /// Include port settings; the bond-port and bridge-port types fill
    /// them in.
    pub fn set_port_data(self, port_data: InfoPortData) -> (r: Self)
        ensures
            r.port_data == Some(port_data),
            r.header == self.header,
            r.info_kind == self.info_kind,
            r.info_data == self.info_data,
            r.port_kind == self.port_kind,
            r.extra_attributes@ == self.extra_attributes@,
    {
        let mut ret = self;
        ret.port_data = Some(port_data);
        ret
    }

    /// The nested link-info entries the built message will carry, in the
    /// order the kernel requires: kind, then data, then port kind, then
    /// port data.
    pub open spec fn spec_link_infos(self) -> Seq<LinkInfo> {
        (match self.info_kind {
            Some(kind) => seq![LinkInfo::Kind(kind)],
            None => Seq::empty(),
        }) + (match self.info_data {
            Some(data) => seq![LinkInfo::Data(data)],
            None => Seq::empty(),
        }) + (match self.port_kind {
            Some(kind) => seq![LinkInfo::PortKind(kind)],
            None => Seq::empty(),
        }) + (match self.port_data {
            Some(data) => seq![LinkInfo::PortData(data)],
            None => Seq::empty(),
        })
    }

    /// Assemble the final message: the extra attributes in insertion
    /// order, then — if any link-info field was set — one `LinkInfo`
    /// attribute nesting them in kind, data, port-kind, port-data order.
    pub fn build(self) -> (r: LinkMessage)
        ensures
            r.header == self.header,
            self.spec_link_infos().len() == 0 ==> r.attributes@ == self.extra_attributes@,
            self.spec_link_infos().len() > 0 ==> {
                &&& r.attributes@.len() == self.extra_attributes@.len() + 1
                &&& r.attributes@.take(self.extra_attributes@.len() as int)
                    == self.extra_attributes@
                &&& r.attributes@.last() matches LinkAttribute::LinkInfo(infos) && infos@
                    == self.spec_link_infos()
            },
    {
        let LinkMessageBuilder {
            header,
            info_kind,
            info_data,
            port_kind,
            port_data,
            extra_attributes,
            _phantom,
        } = self;
        let ghost expected = self.spec_link_infos();

        let mut message = LinkMessage::new();
        message.header = header;
        let ghost base = extra_attributes@;
        message.attributes = extra_attributes;

        let mut link_infos: Vec<LinkInfo> = Vec::new();
        match info_kind {
            Some(kind) => link_infos.push(LinkInfo::Kind(kind)),
            None => {},
        }
        match info_data {
            Some(data) => link_infos.push(LinkInfo::Data(data)),
            None => {},
        }
        match port_kind {
            Some(kind) => link_infos.push(LinkInfo::PortKind(kind)),
            None => {},
        }
        match port_data {
            Some(data) => link_infos.push(LinkInfo::PortData(data)),
            None => {},
        }
        proof {
            assert(link_infos@ =~= expected);
        }

        if link_infos.len() > 0 {
            message.attributes.push(LinkAttribute::LinkInfo(link_infos));
            proof {
                assert(message.attributes@.take(base.len() as int) =~= base);
            }
        }
        message
    }
}

impl<T> Default for LinkMessageBuilder<T> {
    fn default() -> (r: Self)
        ensures
            r.header == LinkHeader::spec_default(),
            r.spec_no_info(),
            r.extra_attributes@ == Seq::<LinkAttribute>::empty(),
    {
        LinkMessageBuilder {
            header: LinkHeader::new(),
            info_kind: None,
            info_data: None,
            port_kind: None,
            port_data: None,
            extra_attributes: Vec::new(),
            _phantom: PhantomData,
        }
    }
}

} // verus!
