//! Builder behaviour across the remaining domains: nexthops, rules,
//! VLAN QoS, bridge VLAN tables and neighbour entries.

use rtnetlink::link::{LinkBridgeVlan, LinkVlan};
use rtnetlink::packet_route::link::{
    AfSpecBridge, BridgeVlanInfoFlags, InfoData, InfoVlan, LinkAttribute, VlanQosMapping,
    BRIDGE_VLAN_INFO_PVID, BRIDGE_VLAN_INFO_RANGE_BEGIN, BRIDGE_VLAN_INFO_UNTAGGED,
};
use rtnetlink::packet_route::neighbour::{NeighbourAddress, NeighbourAttribute, NeighbourState};
use rtnetlink::packet_route::nexthop::{NexthopAttribute, NexthopGroupEntry};
use rtnetlink::packet_route::rule::{RuleAction, RuleAttribute};
use rtnetlink::{
    AddressFamily, Handle, IpAddr, IpVersion, Ipv4Addr, NexthopMessageBuilder, QosMapping,
};

fn v4(a: u8, b: u8, c: u8, d: u8) -> Ipv4Addr {
    Ipv4Addr::from_octets(a, b, c, d)
}

#[test]
fn nexthop_gateway_fixes_the_family_and_emits_octets() {
    let message = NexthopMessageBuilder::<IpAddr>::new()
        .id(7)
        .gateway(IpAddr::V4(v4(192, 168, 1, 1)))
        .oif(2)
        .build();
    assert_eq!(message.header.family, AddressFamily::Inet);
    assert_eq!(message.nlas[0], NexthopAttribute::Id(7));
    assert_eq!(message.nlas[1], NexthopAttribute::Gateway(vec![192, 168, 1, 1]));
    assert_eq!(message.nlas[2], NexthopAttribute::Oif(2));
}

#[test]
fn nexthop_groups_carry_ids_and_weights() {
    let message = NexthopMessageBuilder::<IpAddr>::new()
        .group(vec![(10, 1), (11, 2)])
        .build();
    assert_eq!(
        message.nlas[0],
        NexthopAttribute::Group(vec![
            NexthopGroupEntry { id: 10, weight: 1, resvd1: 0, resvd2: 0 },
            NexthopGroupEntry { id: 11, weight: 2, resvd1: 0, resvd2: 0 },
        ])
    );
}

#[test]
fn nexthop_deletion_names_only_the_id() {
    let handle = Handle::new();
    let request = handle.nexthop().del(42);
    assert_eq!(request.message.nlas, vec![NexthopAttribute::Id(42)]);
}

#[test]
fn rules_accumulate_matches_and_select_a_table() {
    let handle = Handle::new();
    let request = handle
        .rule()
        .add(IpVersion::V4)
        .table_id(100)
        .priority(1000)
        .source_prefix(IpAddr::V4(v4(10, 0, 0, 0)), 8);
    assert_eq!(request.message.header.family, AddressFamily::Inet);
    assert_eq!(request.message.header.action, RuleAction::ToTable);
    assert_eq!(request.message.header.table, 100);
    assert_eq!(request.message.header.src_len, 8);
    assert_eq!(request.message.attributes[0], RuleAttribute::Priority(1000));
    assert_eq!(
        request.message.attributes[1],
        RuleAttribute::Source(IpAddr::V4(v4(10, 0, 0, 0)))
    );

    // A wide table id leaves the one-byte header field alone.
    let request = handle.rule().add(IpVersion::V6).table_id(300);
    assert_eq!(request.message.header.table, 0);
    assert_eq!(request.message.attributes[0], RuleAttribute::Table(300));
}

#[test]
fn vlan_qos_mappings_keep_ingress_before_egress_and_skip_empty_lists() {
    let builder = LinkVlan::new("vlan100", 10, 100).qos(
        vec![QosMapping { from: 1, to: 2 }],
        vec![QosMapping { from: 3, to: 4 }, QosMapping { from: 5, to: 6 }],
    );
    match builder.info_data {
        Some(InfoData::Vlan(entries)) => {
            assert_eq!(entries[0], InfoVlan::Id(100));
            assert_eq!(
                entries[1],
                InfoVlan::IngressQos(vec![VlanQosMapping::Mapping(1, 2)])
            );
            assert_eq!(
                entries[2],
                InfoVlan::EgressQos(vec![
                    VlanQosMapping::Mapping(3, 4),
                    VlanQosMapping::Mapping(5, 6),
                ])
            );
        }
        other => panic!("expected vlan data, got {:?}", other),
    }

    let builder = LinkVlan::new("vlan100", 10, 100).qos(Vec::new(), Vec::new());
    match builder.info_data {
        Some(InfoData::Vlan(entries)) => assert_eq!(entries, vec![InfoVlan::Id(100)]),
        other => panic!("expected vlan data, got {:?}", other),
    }
}

#[test]
fn bridge_vlan_entries_share_one_af_spec_attribute() {
    let builder = LinkBridgeVlan::new(4)
        .vlan(11, BridgeVlanInfoFlags { bits: BRIDGE_VLAN_INFO_PVID })
        .vlan_range_start(20, BridgeVlanInfoFlags { bits: 0 })
        .bridge_self();
    assert_eq!(builder.header.interface_family, AddressFamily::Bridge);
    assert_eq!(builder.extra_attributes.len(), 1);
    match &builder.extra_attributes[0] {
        LinkAttribute::AfSpecBridge(entries) => {
            assert_eq!(entries.len(), 3);
            match entries[0] {
                AfSpecBridge::VlanInfo(info) => {
                    assert_eq!(info.vid, 11);
                    assert_eq!(info.flags.bits, BRIDGE_VLAN_INFO_PVID);
                }
                other => panic!("expected a vlan entry, got {:?}", other),
            }
            match entries[1] {
                AfSpecBridge::VlanInfo(info) => {
                    assert_eq!(info.vid, 20);
                    assert_eq!(info.flags.bits, BRIDGE_VLAN_INFO_RANGE_BEGIN);
                }
                other => panic!("expected a vlan entry, got {:?}", other),
            }
            assert!(matches!(entries[2], AfSpecBridge::Flags(_)));
        }
        other => panic!("expected the af-spec attribute, got {:?}", other),
    }
    // The flag helpers only add bits.
    assert_ne!(BRIDGE_VLAN_INFO_UNTAGGED, 0);
}

#[test]
fn neighbour_entries_default_to_permanent_and_replace_their_target() {
    let handle = Handle::new();
    let request = handle
        .neighbour()
        .add(3, IpAddr::V4(v4(10, 0, 0, 1)))
        .destination(IpAddr::V4(v4(10, 0, 0, 2)));
    assert_eq!(request.message.header.state, NeighbourState::Permanent);
    assert_eq!(request.message.header.ifindex, 3);
    // The second destination replaced the first in place.
    assert_eq!(request.message.attributes.len(), 1);
    assert_eq!(
        request.message.attributes[0],
        NeighbourAttribute::Destination(NeighbourAddress::Inet(v4(10, 0, 0, 2)))
    );
}

#[test]
fn neighbour_link_layer_address_is_appended_then_replaced() {
    let handle = Handle::new();
    let request = handle
        .neighbour()
        .add(3, IpAddr::V4(v4(10, 0, 0, 1)))
        .link_local_address(&[0, 1, 2, 3, 4, 5])
        .link_local_address(&[9, 9, 9, 9, 9, 9]);
    assert_eq!(request.message.attributes.len(), 2);
    assert_eq!(
        request.message.attributes[1],
        NeighbourAttribute::LinkLocalAddress(vec![9, 9, 9, 9, 9, 9])
    );
}

#[test]
fn bridge_fdb_entries_use_the_bridge_family() {
    let handle = Handle::new();
    let request = handle.neighbour().add_bridge(7, &[2, 0, 0, 0, 0, 1]);
    assert_eq!(request.message.header.family, AddressFamily::Bridge);
    assert_eq!(
        request.message.attributes[0],
        NeighbourAttribute::LinkLocalAddress(vec![2, 0, 0, 0, 0, 1])
    );
}

#[test]
fn alternative_names_ride_in_a_property_list() {
    let handle = Handle::new();
    let request = handle.link().property_add(9).alt_ifname(String::from("alt0"));
    assert_eq!(request.message.header.index, 9);
    match &request.message.attributes[0] {
        LinkAttribute::PropList(props) => {
            assert_eq!(
                props[0],
                rtnetlink::packet_route::link::Prop::AltIfName(String::from("alt0"))
            );
        }
        other => panic!("expected a property list, got {:?}", other),
    }
}
