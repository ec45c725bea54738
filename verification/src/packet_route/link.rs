//! Link (network interface) messages: the header, the generic attributes,
//! and the nested per-kind `LinkInfo` attribute tree.

use vstd::prelude::*;
use crate::ip::{AddressFamily, Ipv4Addr, Ipv6Addr};

verus! {

/// `IFF_UP`: the administrative up flag.
pub const LINK_FLAG_UP: u32 = 0x1;
/// `IFF_NOARP`: ARP is disabled on the link.
pub const LINK_FLAG_NOARP: u32 = 0x80;
/// `IFF_PROMISC`: promiscuous mode.
pub const LINK_FLAG_PROMISC: u32 = 0x100;

/// An attribute this library does not type further: its raw kind and
/// payload bytes.
#[derive(Clone, Debug, PartialEq, Eq)]
pub struct DefaultNla {
    pub kind: u16,
    pub value: Vec<u8>,
}

/// The fixed header of a link message.
#[derive(Clone, Copy, Debug, PartialEq, Eq, Structural)]
pub struct LinkHeader {
    pub interface_family: AddressFamily,
    pub index: u32,
    pub link_layer_type: u16,
    pub flags: u32,
    pub change_mask: u32,
}

impl LinkHeader {
    pub fn new() -> (r: LinkHeader)
        ensures
            r == LinkHeader::spec_default(),
    {
        LinkHeader {
            interface_family: AddressFamily::Unspec,
            index: 0,
            link_layer_type: 0,
            flags: 0,
            change_mask: 0,
        }
    }

    pub open spec fn spec_default() -> LinkHeader {
        LinkHeader {
            interface_family: AddressFamily::Unspec,
            index: 0,
            link_layer_type: 0,
            flags: 0,
            change_mask: 0,
        }
    }
}

/// A link property carried in a `PropList` attribute.
#[derive(Clone, Debug, PartialEq, Eq)]
pub enum Prop {
    AltIfName(String),
}

/// Bonding mode.
#[derive(Clone, Copy, Debug, PartialEq, Eq, Structural)]
pub enum BondMode {
    BalanceRr,
    ActiveBackup,
    BalanceXor,
    Broadcast,
    Ieee8023Ad,
    BalanceTlb,
    BalanceAlb,
}

/// Bonding ARP validation policy.
#[derive(Clone, Copy, Debug, PartialEq, Eq, Structural)]
pub enum BondArpValidate {
    /// `none`: no ARP validation.
    Disabled,
    Active,
    Backup,
    All,
    Filter,
    FilterActive,
    FilterBackup,
}

/// One bond attribute (`IFLA_BOND_*`).
#[derive(Clone, Debug, PartialEq, Eq)]
pub enum InfoBond {
    Mode(BondMode),
    ActivePort(u32),
    MiiMon(u32),
    UpDelay(u32),
    DownDelay(u32),
    UseCarrier(u8),
    ArpInterval(u32),
    ArpIpTarget(Vec<Ipv4Addr>),
    ArpValidate(BondArpValidate),
    ArpAllTargets(u32),
    Primary(u32),
    PrimaryReselect(u8),
    FailOverMac(u8),
    XmitHashPolicy(u8),
    ResendIgmp(u32),
    NumPeerNotif(u8),
    AllPortsActive(u8),
    MinLinks(u32),
    LpInterval(u32),
    PacketsPerPort(u32),
    AdLacpActive(u8),
    AdLacpRate(u8),
    AdSelect(u8),
    AdActorSysPrio(u16),
    AdUserPortKey(u16),
    AdActorSystem([u8; 6]),
    TlbDynamicLb(u8),
    PeerNotifDelay(u32),
    MissedMax(u8),
    NsIp6Target(Vec<Ipv6Addr>),
}

/// One bond port attribute (`IFLA_BOND_SLAVE_*`).
#[derive(Clone, Copy, Debug, PartialEq, Eq, Structural)]
pub enum InfoBondPort {
    QueueId(u16),
    Prio(i32),
}

/// Bridge STP mode.
#[derive(Clone, Copy, Debug, PartialEq, Eq, Structural)]
pub enum BridgeStpState {
    Disabled,
    KernelStp,
    UserStp,
    Other(u32),
}

/// Bridge multicast router mode.
#[derive(Clone, Copy, Debug, PartialEq, Eq, Structural)]
pub enum BridgeMulticastRouterType {
    Disabled,
    TempQuery,
    Permanent,
    Temp,
    Other(u8),
}

/// VLAN protocol carried by a bridge.
#[derive(Clone, Copy, Debug, PartialEq, Eq, Structural)]
pub enum VlanProtocol {
    Ieee8021Q,
    Ieee8021Ad,
}

/// `BR_BOOLOPT_NO_LL_LEARN` as a bit of [`BridgeBooleanOptions`].
pub const BRIDGE_BOOL_OPT_NO_LINK_LOCAL_LEARN: u32 = 0x1;
/// `BR_BOOLOPT_MCAST_VLAN_SNOOPING` as a bit.
pub const BRIDGE_BOOL_OPT_VLAN_MULTICAST_SNOOPING: u32 = 0x2;
/// `BR_BOOLOPT_MST_ENABLE` as a bit.
pub const BRIDGE_BOOL_OPT_MST_ENABLE: u32 = 0x4;
/// `BR_BOOLOPT_MDB_OFFLOAD_FAIL_NOTIFICATION` as a bit.
pub const BRIDGE_BOOL_OPT_MDB_OFFLOAD_FAIL_NOTIF: u32 = 0x8;
/// `BR_BOOLOPT_FDB_LOCAL_VLAN_0` as a bit.
pub const BRIDGE_BOOL_OPT_FDB_LOCAL_VLAN_0: u32 = 0x10;

/// The kernel's `br_boolopt_multi`: which boolean options to change
/// (`mask`) and the value to give each one (`value`).
#[derive(Clone, Copy, Debug, PartialEq, Eq, Structural)]
pub struct BridgeBooleanOptions {
    pub value: u32,
    pub mask: u32,
}

/// One bridge attribute (`IFLA_BR_*`).
#[derive(Clone, Copy, Debug, PartialEq, Eq)]
pub enum InfoBridge {
    AgeingTime(u32),
    GroupFwdMask(u16),
    GroupAddr([u8; 6]),
    ForwardDelay(u32),
    HelloTime(u32),
    MaxAge(u32),
    StpState(BridgeStpState),
    Priority(u16),
    FdbMaxLearned(u32),
    VlanFiltering(bool),
    VlanProtocol(VlanProtocol),
    VlanDefaultPvid(u16),
    VlanStatsEnabled(bool),
    VlanStatsPerPort(bool),
    MulticastSnooping(bool),
    MulticastRouter(BridgeMulticastRouterType),
    MulticastQueryUseIfaddr(bool),
    MulticastQuerier(bool),
    MulticastHashMax(u32),
    MulticastLastMemberCount(u32),
    MulticastStartupQueryCount(u32),
    MulticastLastMemberInterval(u64),
    MulticastMembershipInterval(u64),
    MulticastQuerierInterval(u64),
    MulticastQueryInterval(u64),
    MulticastQueryResponseInterval(u64),
    MulticastStartupQueryInterval(u64),
    MulticastStatsEnabled(bool),
    MulticastIgmpVersion(u8),
    MulticastMldVersion(u8),
    NfCallIpTables(bool),
    NfCallIp6Tables(bool),
    NfCallArpTables(bool),
    MultiBoolOpt(BridgeBooleanOptions),
}

/// Spanning-tree state of one bridge port.
#[derive(Clone, Copy, Debug, PartialEq, Eq, Structural)]
pub enum BridgePortState {
    Disabled,
    Listening,
    Learning,
    Forwarding,
    Blocking,
    Other(u8),
}

/// One bridge port attribute (`IFLA_BRPORT_*`).
#[derive(Clone, Copy, Debug, PartialEq, Eq, Structural)]
pub enum InfoBridgePort {
    Flush,
    State(BridgePortState),
    Priority(u16),
    Cost(u32),
    Guard(bool),
    HairpinMode(bool),
    Protect(bool),
    Learning(bool),
    UnicastFlood(bool),
    ProxyARP(bool),
    ProxyARPWifi(bool),
    MulticastRouter(BridgeMulticastRouterType),
    FastLeave(bool),
    BroadcastFlood(bool),
    MulticastFlood(bool),
    MulticastToUnicast(bool),
    GroupFwdMask(u16),
    NeighSupress(bool),
    NeighVlanSuppress(bool),
    VlanTunnel(bool),
    Isolated(bool),
    Locked(bool),
    Mab(bool),
    BackupPort(u32),
    BackupNextHopId(u32),
}

/// One VLAN priority mapping, internal priority to VLAN priority.
#[derive(Clone, Copy, Debug, PartialEq, Eq, Structural)]
pub enum VlanQosMapping {
    Mapping(u32, u32),
}

/// One VLAN attribute (`IFLA_VLAN_*`).
#[derive(Clone, Debug, PartialEq, Eq)]
pub enum InfoVlan {
    Id(u16),
    IngressQos(Vec<VlanQosMapping>),
    EgressQos(Vec<VlanQosMapping>),
}

/// One VXLAN attribute (`IFLA_VXLAN_*`).
#[derive(Clone, Debug, PartialEq, Eq)]
pub enum InfoVxlan {
    Id(u32),
    Link(u32),
    Port(u16),
    Group(Vec<u8>),
    Group6(Vec<u8>),
    Local(Vec<u8>),
    Local6(Vec<u8>),
    Tos(u8),
    Ttl(u8),
    Label(u32),
    Learning(bool),
    Ageing(u32),
    Limit(u32),
    PortRange(u16, u16),
    Proxy(bool),
    Rsc(bool),
    L2Miss(bool),
    L3Miss(bool),
    CollectMetadata(bool),
    UDPCsum(bool),
}

/// The veth info attribute: the peer device's own link message.
#[derive(Debug, PartialEq, Eq)]
pub enum InfoVeth {
    Peer(LinkMessage),
}

/// MAC VLAN mode (shared with MAC VTAP).
#[derive(Clone, Copy, Debug, PartialEq, Eq, Structural)]
pub enum MacVlanMode {
    Private,
    Vepa,
    Bridge,
    Passthrough,
    Source,
    Other(u32),
}

/// MAC VTAP devices use the MAC VLAN modes.
pub type MacVtapMode = MacVlanMode;

/// One MAC VLAN attribute.
#[derive(Clone, Copy, Debug, PartialEq, Eq, Structural)]
pub enum InfoMacVlan {
    Mode(MacVlanMode),
}

/// One MAC VTAP attribute.
#[derive(Clone, Copy, Debug, PartialEq, Eq, Structural)]
pub enum InfoMacVtap {
    Mode(MacVtapMode),
}

/// IP VLAN mode (shared with IP VTAP).
#[derive(Clone, Copy, Debug, PartialEq, Eq, Structural)]
pub enum IpVlanMode {
    L2,
    L3,
    L3S,
    Other(u16),
}

/// IP VTAP devices use the IP VLAN modes.
pub type IpVtapMode = IpVlanMode;

/// `IPVLAN_F_PRIVATE` bit of [`IpVlanFlags`].
pub const IP_VLAN_FLAG_PRIVATE: u16 = 0x1;
/// `IPVLAN_F_VEPA` bit of [`IpVlanFlags`].
pub const IP_VLAN_FLAG_VEPA: u16 = 0x2;

/// IP VLAN flag bits.
#[derive(Clone, Copy, Debug, PartialEq, Eq, Structural)]
pub struct IpVlanFlags {
    pub bits: u16,
}

impl IpVlanFlags {
    /// No flag set.
    pub fn empty() -> (r: IpVlanFlags)
        ensures
            r.bits == 0,
    {
        IpVlanFlags { bits: 0 }
    }
}

/// IP VTAP devices use the IP VLAN flags.
pub type IpVtapFlags = IpVlanFlags;

/// One IP VLAN attribute.
#[derive(Clone, Copy, Debug, PartialEq, Eq, Structural)]
pub enum InfoIpVlan {
    Mode(IpVlanMode),
    Flags(IpVlanFlags),
}

/// One IP VTAP attribute.
#[derive(Clone, Copy, Debug, PartialEq, Eq, Structural)]
pub enum InfoIpVtap {
    Mode(IpVtapMode),
    Flags(IpVtapFlags),
}

/// MACsec cipher suite.
#[derive(Clone, Copy, Debug, PartialEq, Eq, Structural)]
pub enum MacSecCipherId {
    DefaultGcmAes128,
    GcmAes128,
    GcmAes256,
    GcmAesXpn128,
    GcmAesXpn256,
    Other(u64),
}

/// MACsec validation mode.
#[derive(Clone, Copy, Debug, PartialEq, Eq, Structural)]
pub enum MacSecValidate {
    Disabled,
    Check,
    Strict,
    Other(u8),
}

/// MACsec offload mode.
#[derive(Clone, Copy, Debug, PartialEq, Eq, Structural)]
pub enum MacSecOffload {
    Off,
    Phy,
    Mac,
    Other(u8),
}

/// One MACsec attribute (`IFLA_MACSEC_*`).
#[derive(Clone, Debug, PartialEq, Eq)]
pub enum InfoMacSec {
    Sci(u64),
    Port(u16),
    IcvLen(u8),
    CipherSuite(MacSecCipherId),
    Window(u32),
    EncodingSa(u8),
    Encrypt(u8),
    Protect(u8),
    IncSci(u8),
    Es(u8),
    Scb(u8),
    ReplayProtect(u8),
    Validation(MacSecValidate),
    Offload(MacSecOffload),
    Other(DefaultNla),
}

/// Netkit device mode.
#[derive(Clone, Copy, Debug, PartialEq, Eq, Structural)]
pub enum NetkitMode {
    L2,
    L3,
    Other(u32),
}

/// Netkit default policy.
#[derive(Clone, Copy, Debug, PartialEq, Eq, Structural)]
pub enum NetkitPolicy {
    Pass,
    Drop,
    Redirect,
    Other(u32),
}

/// Netkit packet scrubbing policy.
#[derive(Clone, Copy, Debug, PartialEq, Eq, Structural)]
pub enum NetkitScrub {
    /// No packet scrubbing.
    Disabled,
    /// The kernel's default packet scrubbing.
    Default,
}

/// One netkit attribute.
#[derive(Debug, PartialEq, Eq)]
pub enum InfoNetkit {
    Peer(LinkMessage),
    Primary(bool),
    Policy(NetkitPolicy),
    PeerPolicy(NetkitPolicy),
    Mode(NetkitMode),
    Scrub(NetkitScrub),
    PeerScrub(NetkitScrub),
    Headroom(u16),
    Tailroom(u16),
}

/// One VRF attribute.
#[derive(Clone, Copy, Debug, PartialEq, Eq, Structural)]
pub enum InfoVrf {
    TableId(u32),
}

/// One XFRM attribute.
#[derive(Clone, Copy, Debug, PartialEq, Eq, Structural)]
pub enum InfoXfrm {
    Link(u32),
    IfId(u32),
}

/// The kind of a link, as the `IFLA_INFO_KIND` string names it.
#[derive(Debug, PartialEq, Eq)]
pub enum InfoKind {
    Dummy,
    Bond,
    Bridge,
    Veth,
    Vlan,
    Vxlan,
    MacVlan,
    MacVtap,
    IpVlan,
    IpVtap,
    MacSec,
    Netkit,
    Vrf,
    Xfrm,
    Wireguard,
    Other(String),
}

/// Kind-specific link data (`IFLA_INFO_DATA`).
#[derive(Debug, PartialEq, Eq)]
pub enum InfoData {
    Bond(Vec<InfoBond>),
    Bridge(Vec<InfoBridge>),
    Vlan(Vec<InfoVlan>),
    Vxlan(Vec<InfoVxlan>),
    Veth(InfoVeth),
    MacVlan(Vec<InfoMacVlan>),
    MacVtap(Vec<InfoMacVtap>),
    IpVlan(Vec<InfoIpVlan>),
    IpVtap(Vec<InfoIpVtap>),
    MacSec(Vec<InfoMacSec>),
    Netkit(Vec<InfoNetkit>),
    Vrf(Vec<InfoVrf>),
    Xfrm(Vec<InfoXfrm>),
}

/// The kind of an aggregated port (`IFLA_INFO_SLAVE_KIND`).
#[derive(Debug, PartialEq, Eq)]
pub enum InfoPortKind {
    Bond,
    Bridge,
    Other(String),
}

/// Port-specific data (`IFLA_INFO_SLAVE_DATA`).
#[derive(Debug, PartialEq, Eq)]
pub enum InfoPortData {
    BondPort(Vec<InfoBondPort>),
    BridgePort(Vec<InfoBridgePort>),
}

/// One entry of the nested `IFLA_LINKINFO` attribute. The kernel requires
/// `Kind` before `Data` before `PortKind` before `PortData`.
#[derive(Debug, PartialEq, Eq)]
pub enum LinkInfo {
    Kind(InfoKind),
    Data(InfoData),
    PortKind(InfoPortKind),
    PortData(InfoPortData),
}

/// `BRIDGE_VLAN_INFO_MASTER` bit of [`BridgeVlanInfoFlags`].
pub const BRIDGE_VLAN_INFO_MASTER: u16 = 0x1;
/// `BRIDGE_VLAN_INFO_PVID` bit.
pub const BRIDGE_VLAN_INFO_PVID: u16 = 0x2;
/// `BRIDGE_VLAN_INFO_UNTAGGED` bit.
pub const BRIDGE_VLAN_INFO_UNTAGGED: u16 = 0x4;
/// `BRIDGE_VLAN_INFO_RANGE_BEGIN` bit.
pub const BRIDGE_VLAN_INFO_RANGE_BEGIN: u16 = 0x8;
/// `BRIDGE_VLAN_INFO_RANGE_END` bit.
pub const BRIDGE_VLAN_INFO_RANGE_END: u16 = 0x10;

/// The flag bits of one bridge VLAN entry.
#[derive(Clone, Copy, Debug, PartialEq, Eq, Structural)]
pub struct BridgeVlanInfoFlags {
    pub bits: u16,
}

/// One bridge VLAN table entry.
#[derive(Clone, Copy, Debug, PartialEq, Eq, Structural)]
pub struct BridgeVlanInfo {
    pub vid: u16,
    pub flags: BridgeVlanInfoFlags,
}

/// Whether a bridge command addresses the controller or the lower device.
#[derive(Clone, Copy, Debug, PartialEq, Eq, Structural)]
pub enum BridgeFlag {
    Controller,
    LowerDev,
}

/// One entry of the bridge `IFLA_AF_SPEC` attribute.
#[derive(Clone, Copy, Debug, PartialEq, Eq, Structural)]
pub enum AfSpecBridge {
    Flags(BridgeFlag),
    VlanInfo(BridgeVlanInfo),
}

/// One generic link attribute (`IFLA_*`).
#[derive(Debug, PartialEq, Eq)]
pub enum LinkAttribute {
    IfName(String),
    Mtu(u32),
    Address(Vec<u8>),
    NetNsPid(u32),
    NetNsFd(i32),
    Link(u32),
    Controller(u32),
    LinkInfo(Vec<LinkInfo>),
    AfSpecBridge(Vec<AfSpecBridge>),
    PropList(Vec<Prop>),
    Other(DefaultNla),
}

/// A whole link message: fixed header plus ordered attributes.
#[derive(Debug, PartialEq, Eq)]
pub struct LinkMessage {
    pub header: LinkHeader,
    pub attributes: Vec<LinkAttribute>,
}

impl LinkMessage {
    pub fn new() -> (r: LinkMessage)
        ensures
            r.header == LinkHeader::spec_default(),
            r.attributes@ == Seq::<LinkAttribute>::empty(),
    {
        LinkMessage { header: LinkHeader::new(), attributes: Vec::new() }
    }
}

} // verus!
