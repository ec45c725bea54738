//! Link (interface) management: the generic builder, the per-kind
//! builders, and the link requests.

mod add;
mod bond;
mod bond_port;
mod bridge;
mod bridge_port;
mod bridge_vlan;
mod del;
mod get;
mod handle;
mod builder;
mod dummy;
mod ip_vlan;
mod ip_vtap;
mod mac_vlan;
mod macsec;
mod netkit;
mod property_add;
mod property_del;
mod set;
mod mac_vtap;
mod veth;
mod vlan;
mod vrf;
mod vxlan;
mod wireguard;
mod xfrm;

pub use self::add::LinkAddRequest;
pub use self::bond::LinkBond;
pub use self::bond_port::LinkBondPort;
pub use self::bridge::LinkBridge;
pub use self::bridge_port::LinkBridgePort;
pub use self::bridge_vlan::LinkBridgeVlan;
pub use self::builder::{LinkMessageBuilder, LinkUnspec};
pub use self::del::LinkDelRequest;
pub use self::get::{link_has_name, next_link_message, single_link, LinkGetRequest};
pub use self::handle::LinkHandle;
pub use self::dummy::LinkDummy;
pub use self::ip_vlan::LinkIpVlan;
pub use self::ip_vtap::LinkIpVtap;
pub use self::mac_vlan::LinkMacVlan;
pub use self::mac_vtap::LinkMacVtap;
pub use self::macsec::LinkMacSec;
pub use self::netkit::LinkNetkit;
pub use self::property_add::LinkNewPropRequest;
pub use self::property_del::LinkDelPropRequest;
pub use self::set::LinkSetRequest;
pub use self::veth::LinkVeth;
pub use self::vlan::{LinkVlan, QosMapping};
pub use self::vxlan::LinkVxlan;
pub use self::vrf::LinkVrf;
pub use self::wireguard::LinkWireguard;
pub use self::xfrm::LinkXfrm;
