//! Route builder behaviour, including the cross-family validation.

use rtnetlink::packet_route::route::{
    RouteAddress, RouteAttribute, RouteProtocol, RouteScope, RouteType, RT_TABLE_MAIN,
};
use rtnetlink::proto::{NLM_F_ACK, NLM_F_CREATE, NLM_F_EXCL, NLM_F_REPLACE, NLM_F_REQUEST};
use rtnetlink::route::InvalidRouteMessage;
use rtnetlink::{AddressFamily, Handle, IpAddr, Ipv4Addr, Ipv6Addr, RouteMessageBuilder};

fn v4(a: u8, b: u8, c: u8, d: u8) -> Ipv4Addr {
    Ipv4Addr::from_octets(a, b, c, d)
}

fn some_v6() -> Ipv6Addr {
    Ipv6Addr { bits: 0x2001_0db8_0000_0000_0000_0000_0000_0001 }
}

#[test]
fn fresh_builder_has_the_documented_defaults() {
    let message = RouteMessageBuilder::<Ipv4Addr>::new().build();
    assert_eq!(message.header.table, RT_TABLE_MAIN);
    assert_eq!(message.header.protocol, RouteProtocol::Static);
    assert_eq!(message.header.scope, RouteScope::Universe);
    assert_eq!(message.header.kind, RouteType::Unicast);
    assert_eq!(message.header.address_family, AddressFamily::Inet);
}

#[test]
fn gateway_of_one_family_then_destination_of_the_other_is_rejected() {
    // The IPv6 gateway fixes the route's family; an IPv4 destination
    // prefix then contradicts it and must yield the validation error,
    // not a built message.
    let result = RouteMessageBuilder::<IpAddr>::new()
        .gateway(IpAddr::V6(some_v6()))
        .unwrap()
        .destination_prefix(IpAddr::V4(v4(10, 0, 0, 0)), 24);
    assert!(matches!(
        result,
        Err(InvalidRouteMessage::DestinationPrefix(_, 24))
    ));
}

#[test]
fn destination_of_one_family_then_gateway_of_the_other_is_rejected() {
    let result = RouteMessageBuilder::<IpAddr>::new()
        .destination_prefix(IpAddr::V4(v4(10, 0, 0, 0)), 24)
        .unwrap()
        .gateway(IpAddr::V6(some_v6()));
    assert!(matches!(result, Err(InvalidRouteMessage::Gateway(_))));
}

#[test]
fn overlong_prefix_is_rejected() {
    let result = RouteMessageBuilder::<IpAddr>::new()
        .destination_prefix(IpAddr::V4(v4(10, 0, 0, 0)), 33);
    assert!(matches!(
        result,
        Err(InvalidRouteMessage::DestinationPrefix(_, 33))
    ));

    let result = RouteMessageBuilder::<IpAddr>::new()
        .source_prefix(IpAddr::V6(some_v6()), 129);
    assert!(matches!(result, Err(InvalidRouteMessage::SourcePrefix(_, 129))));
}

#[test]
fn matching_families_build_the_message() {
    let message = RouteMessageBuilder::<IpAddr>::new()
        .destination_prefix(IpAddr::V4(v4(10, 0, 0, 0)), 24)
        .unwrap()
        .gateway(IpAddr::V4(v4(192, 168, 1, 1)))
        .unwrap()
        .build();
    assert_eq!(message.header.address_family, AddressFamily::Inet);
    assert_eq!(message.header.destination_prefix_length, 24);
    assert_eq!(message.attributes.len(), 2);
}

#[test]
fn route_to_table_254_keeps_prefix_and_gateway() {
    // Build a route to 10.0.0.0/24 via 192.168.1.1 with table id 254:
    // the table fits the header byte, the destination prefix length is
    // 24, and the gateway attribute carries the nexthop.
    let message = RouteMessageBuilder::<Ipv4Addr>::new()
        .destination_prefix(v4(10, 0, 0, 0), 24)
        .gateway(v4(192, 168, 1, 1))
        .table_id(254)
        .build();

    assert_eq!(message.header.table, 254);
    assert_eq!(message.header.destination_prefix_length, 24);
    assert_eq!(
        message.attributes[0],
        RouteAttribute::Destination(RouteAddress::Inet(v4(10, 0, 0, 0)))
    );
    assert_eq!(
        message.attributes[1],
        RouteAttribute::Gateway(RouteAddress::Inet(v4(192, 168, 1, 1)))
    );

    let handle = Handle::new();
    let wire = handle.route().add(message).into_request();
    assert_eq!(
        wire.flags,
        NLM_F_REQUEST | NLM_F_ACK | NLM_F_EXCL | NLM_F_CREATE
    );
}

#[test]
fn wide_table_id_travels_as_an_attribute() {
    let message = RouteMessageBuilder::<Ipv4Addr>::new().table_id(510).build();
    // The header byte keeps the default; the wide id rides in the
    // attribute list.
    assert_eq!(message.header.table, RT_TABLE_MAIN);
    assert_eq!(message.attributes[0], RouteAttribute::Table(510));
}

#[test]
fn validation_failures_surface_as_invalid_requests() {
    let error = RouteMessageBuilder::<IpAddr>::new()
        .gateway(IpAddr::V6(some_v6()))
        .unwrap()
        .destination_prefix(IpAddr::V4(v4(10, 0, 0, 0)), 24)
        .unwrap_err();
    assert!(matches!(error.into_error(), rtnetlink::Error::InvalidRequest(_)));
}

#[test]
fn replace_swaps_excl_for_replace() {
    let handle = Handle::new();
    let message = RouteMessageBuilder::<Ipv4Addr>::new().build();
    let wire = handle.route().add(message).replace().into_request();
    assert_eq!(
        wire.flags,
        NLM_F_REQUEST | NLM_F_ACK | NLM_F_REPLACE | NLM_F_CREATE
    );
}
