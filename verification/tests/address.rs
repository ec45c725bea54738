//! Address builder and client-side filter behaviour.

use rtnetlink::packet_route::address::{AddressAttribute, AddressMessage};
use rtnetlink::proto::{NLM_F_ACK, NLM_F_CREATE, NLM_F_EXCL, NLM_F_REPLACE, NLM_F_REQUEST};
use rtnetlink::{
    AddressFamily, AddressMessageBuilder, Handle, IpAddr, Ipv4Addr, Ipv6Addr,
};

fn v4(a: u8, b: u8, c: u8, d: u8) -> Ipv4Addr {
    Ipv4Addr::from_octets(a, b, c, d)
}

#[test]
fn ipv4_broadcast_is_derived_from_prefix_length() {
    let message = AddressMessageBuilder::<Ipv4Addr>::new()
        .index(3)
        .address(v4(192, 168, 1, 10), 24)
        .build();

    assert_eq!(message.header.family, AddressFamily::Inet);
    assert_eq!(message.header.prefix_len, 24);
    assert_eq!(message.header.index, 3);
    assert_eq!(message.attributes.len(), 3);
    assert_eq!(
        message.attributes[0],
        AddressAttribute::Address(IpAddr::V4(v4(192, 168, 1, 10)))
    );
    assert_eq!(
        message.attributes[1],
        AddressAttribute::Local(IpAddr::V4(v4(192, 168, 1, 10)))
    );
    // 192.168.1.10/24 broadcasts to 192.168.1.255.
    assert_eq!(
        message.attributes[2],
        AddressAttribute::Broadcast(v4(192, 168, 1, 255))
    );
}

#[test]
fn ipv4_host_prefix_broadcasts_to_itself() {
    let message = AddressMessageBuilder::<Ipv4Addr>::new()
        .address(v4(10, 0, 0, 7), 32)
        .build();
    assert_eq!(
        message.attributes[2],
        AddressAttribute::Broadcast(v4(10, 0, 0, 7))
    );
}

#[test]
fn ipv4_multicast_address_emits_no_attributes() {
    let message = AddressMessageBuilder::<Ipv4Addr>::new()
        .address(v4(224, 0, 0, 1), 24)
        .build();
    assert_eq!(message.attributes.len(), 0);
    assert_eq!(message.header.prefix_len, 24);
}

#[test]
fn ipv6_multicast_uses_the_multicast_attribute() {
    let addr = Ipv6Addr { bits: 0xff02_0000_0000_0000_0000_0000_0000_0001 };
    let message = AddressMessageBuilder::<Ipv6Addr>::new().address(addr, 64).build();
    assert_eq!(message.header.family, AddressFamily::Inet6);
    assert_eq!(message.attributes.len(), 1);
    assert_eq!(message.attributes[0], AddressAttribute::Multicast(addr));
}

#[test]
fn ipv6_unicast_emits_address_and_local() {
    let addr = Ipv6Addr { bits: 0x2001_0db8_0000_0000_0000_0000_0000_0001 };
    let message = AddressMessageBuilder::<Ipv6Addr>::new().address(addr, 64).build();
    assert_eq!(message.attributes.len(), 2);
    assert_eq!(message.attributes[0], AddressAttribute::Address(IpAddr::V6(addr)));
    assert_eq!(message.attributes[1], AddressAttribute::Local(IpAddr::V6(addr)));
}

#[test]
fn add_request_carries_create_flags_and_replace_swaps_excl() {
    let handle = Handle::new();
    let request = handle.address().add(5, IpAddr::V4(v4(10, 1, 2, 3)), 16);
    let wire = request.into_request();
    assert_eq!(wire.flags, NLM_F_REQUEST | NLM_F_ACK | NLM_F_EXCL | NLM_F_CREATE);

    let request = handle.address().add(5, IpAddr::V4(v4(10, 1, 2, 3)), 16).replace();
    let wire = request.into_request();
    assert_eq!(wire.flags, NLM_F_REQUEST | NLM_F_ACK | NLM_F_REPLACE | NLM_F_CREATE);
}

fn sample_message(index: u32, prefix_len: u8, addr: Ipv4Addr) -> AddressMessage {
    AddressMessageBuilder::<Ipv4Addr>::new()
        .index(index)
        .address(addr, prefix_len)
        .build()
}

#[test]
fn link_index_filter_keeps_only_that_interface() {
    let handle = Handle::new();
    let request = handle.address().get().set_link_index_filter(3);
    let (_, filter) = request.into_request();

    let on_three = sample_message(3, 24, v4(10, 0, 0, 1));
    let on_four = sample_message(4, 24, v4(10, 0, 0, 2));
    assert!(filter.matches(&on_three));
    assert!(!filter.matches(&on_four));
}

#[test]
fn prefix_length_filter_keeps_only_that_length() {
    let handle = Handle::new();
    let request = handle.address().get().set_prefix_length_filter(24);
    let (_, filter) = request.into_request();

    assert!(filter.matches(&sample_message(1, 24, v4(10, 0, 0, 1))));
    assert!(!filter.matches(&sample_message(1, 16, v4(10, 0, 0, 1))));
}

#[test]
fn address_filter_matches_address_and_local() {
    let handle = Handle::new();
    let wanted = IpAddr::V4(v4(10, 0, 0, 1));
    let request = handle.address().get().set_address_filter(wanted);
    let (_, filter) = request.into_request();

    assert!(filter.matches(&sample_message(1, 24, v4(10, 0, 0, 1))));
    assert!(!filter.matches(&sample_message(1, 24, v4(10, 0, 0, 2))));
}

#[test]
fn address_filter_matches_multicast_and_anycast_attributes() {
    let v6 = Ipv6Addr { bits: 0xff02_0000_0000_0000_0000_0000_0000_0005 };
    let handle = Handle::new();
    let request = handle.address().get().set_address_filter(IpAddr::V6(v6));
    let (_, filter) = request.into_request();

    let mut carrying = AddressMessage::new();
    carrying.attributes.push(AddressAttribute::Multicast(v6));
    assert!(filter.matches(&carrying));

    let mut anycast = AddressMessage::new();
    anycast.attributes.push(AddressAttribute::Anycast(v6));
    assert!(filter.matches(&anycast));

    let empty = AddressMessage::new();
    assert!(!filter.matches(&empty));
}

#[test]
fn filters_combine_conjunctively() {
    let handle = Handle::new();
    let request = handle
        .address()
        .get()
        .set_link_index_filter(3)
        .set_prefix_length_filter(24)
        .set_address_filter(IpAddr::V4(v4(10, 0, 0, 1)));
    let (_, filter) = request.into_request();

    assert!(filter.matches(&sample_message(3, 24, v4(10, 0, 0, 1))));
    assert!(!filter.matches(&sample_message(3, 25, v4(10, 0, 0, 1))));
    assert!(!filter.matches(&sample_message(2, 24, v4(10, 0, 0, 1))));
}
