//! Link builder behaviour, and the veth add/get/del exchange at the
//! message level.

use rtnetlink::link::{link_has_name, next_link_message, single_link};
use rtnetlink::packet_route::link::{
    BondMode, InfoBond, InfoBridge, InfoData, InfoKind, InfoVeth, InfoVxlan, LinkAttribute,
    LinkInfo, LinkMessage, BRIDGE_BOOL_OPT_MST_ENABLE, LINK_FLAG_UP,
};
use rtnetlink::packet_route::message::RouteNetlinkMessage;
use rtnetlink::proto::{NLM_F_ACK, NLM_F_DUMP, NLM_F_REQUEST};
use rtnetlink::{
    Error, Handle, LinkBond, LinkBridge, LinkVeth, LinkVxlan, ReplyPayload,
};

fn name_of(message: &LinkMessage) -> Option<&str> {
    for attribute in &message.attributes {
        if let LinkAttribute::IfName(name) = attribute {
            return Some(name.as_str());
        }
    }
    None
}

fn link_info_of(message: &LinkMessage) -> Option<&Vec<LinkInfo>> {
    for attribute in &message.attributes {
        if let LinkAttribute::LinkInfo(infos) = attribute {
            return Some(infos);
        }
    }
    None
}

#[test]
fn veth_message_names_both_ends_and_the_kind() {
    let message = LinkVeth::new("veth-a", "veth-b").build();

    assert_eq!(name_of(&message), Some("veth-a"));
    let infos = link_info_of(&message).expect("a veth message nests link info");
    assert_eq!(infos[0], LinkInfo::Kind(InfoKind::Veth));
    match &infos[1] {
        LinkInfo::Data(InfoData::Veth(InfoVeth::Peer(peer))) => {
            assert_eq!(name_of(peer), Some("veth-b"));
        }
        other => panic!("expected the peer message, got {:?}", other),
    }
}

#[test]
fn veth_round_trip_at_the_message_level() {
    // Add a veth pair, look it up by name among dumped links, delete it
    // by index, and observe that a dump without it has no match.
    let handle = Handle::new();
    let add = handle.link().add(LinkVeth::new("veth-a", "veth-b").build());
    let wire = add.into_request();
    assert!(matches!(wire.message, RouteNetlinkMessage::NewLink(_)));

    // The kernel's dump: the new link plus an unrelated one.
    let mut created = LinkVeth::new("veth-a", "veth-b").build();
    created.header.index = 7;
    let unrelated = LinkBridge::new("br0").build();

    let mut matches_by_name = Vec::new();
    for message in [created, unrelated] {
        if link_has_name(&message, "veth-a") {
            matches_by_name.push(message);
        }
    }
    assert_eq!(matches_by_name.len(), 1);
    assert_eq!(matches_by_name[0].header.index, 7);
    let infos = link_info_of(&matches_by_name[0]).expect("link info");
    assert_eq!(infos[0], LinkInfo::Kind(InfoKind::Veth));

    // Delete by the found index.
    let del = handle.link().del(matches_by_name[0].header.index);
    let wire = del.into_request();
    assert_eq!(wire.flags, NLM_F_REQUEST | NLM_F_ACK);
    match wire.message {
        RouteNetlinkMessage::DelLink(message) => assert_eq!(message.header.index, 7),
        other => panic!("expected a link deletion, got {:?}", other),
    }

    // A dump after the deletion holds only the unrelated link: no name
    // match remains.
    let remaining = [LinkBridge::new("br0").build()];
    assert!(remaining.iter().all(|message| !link_has_name(message, "veth-a")));
}

#[test]
fn an_empty_lookup_is_a_request_failure() {
    assert!(matches!(
        single_link(Vec::new()),
        Err(Error::RequestFailed)
    ));
    let found = single_link(vec![LinkVeth::new("veth-a", "veth-b").build()]);
    assert!(found.is_ok());
}

#[test]
fn get_by_name_drops_the_dump_flag() {
    let handle = Handle::new();
    let request = handle.link().get();
    let wire = request.into_request();
    assert_eq!(wire.flags, NLM_F_REQUEST | NLM_F_DUMP);

    let request = handle.link().get().match_name(String::from("veth-a"));
    let wire = request.into_request();
    assert_eq!(wire.flags, NLM_F_REQUEST);
}

#[test]
fn dump_interpretation_distinguishes_items_end_and_errors() {
    let item = ReplyPayload::InnerMessage(RouteNetlinkMessage::NewLink(LinkMessage::new()));
    assert!(matches!(next_link_message(item), Ok(Some(_))));
    assert!(matches!(next_link_message(ReplyPayload::Done), Ok(None)));
    match next_link_message(ReplyPayload::Status(-19)) {
        Err(Error::NetlinkError(em)) => assert_eq!(em.code, -19),
        other => panic!("expected a netlink error, got {:?}", other),
    }
    let wrong_kind = ReplyPayload::InnerMessage(RouteNetlinkMessage::NewAddress(
        rtnetlink::packet_route::address::AddressMessage::new(),
    ));
    assert!(matches!(
        next_link_message(wrong_kind),
        Err(Error::UnexpectedMessage)
    ));
}

#[test]
fn bond_attributes_accumulate_in_call_order() {
    let builder = LinkBond::new("bond0")
        .mode(BondMode::ActiveBackup)
        .miimon(100)
        .updelay(100)
        .downdelay(100)
        .min_links(2)
        .up();
    assert_eq!(builder.header.flags & LINK_FLAG_UP, LINK_FLAG_UP);
    let message = builder.build();
    let infos = link_info_of(&message).expect("link info");
    assert_eq!(infos[0], LinkInfo::Kind(InfoKind::Bond));
    match &infos[1] {
        LinkInfo::Data(InfoData::Bond(entries)) => {
            assert_eq!(entries[0], InfoBond::Mode(BondMode::ActiveBackup));
            assert_eq!(entries[1], InfoBond::MiiMon(100));
            assert_eq!(entries[2], InfoBond::UpDelay(100));
            assert_eq!(entries[3], InfoBond::DownDelay(100));
            assert_eq!(entries[4], InfoBond::MinLinks(2));
        }
        other => panic!("expected bond data, got {:?}", other),
    }
}

#[test]
fn bridge_boolean_options_share_one_block() {
    let message = LinkBridge::new("br0")
        .mst_enabled(true)
        .no_linklocal_learn(true)
        .mst_enabled(false)
        .build();
    let infos = link_info_of(&message).expect("link info");
    match &infos[1] {
        LinkInfo::Data(InfoData::Bridge(entries)) => {
            assert_eq!(entries.len(), 1);
            match entries[0] {
                InfoBridge::MultiBoolOpt(options) => {
                    // Both bits are in the change mask; the MST bit was
                    // set and then cleared again.
                    assert_eq!(options.mask, 0x5);
                    assert_eq!(options.value & BRIDGE_BOOL_OPT_MST_ENABLE, 0);
                    assert_eq!(options.value & 0x1, 0x1);
                }
                other => panic!("expected the options block, got {:?}", other),
            }
        }
        other => panic!("expected bridge data, got {:?}", other),
    }
}

#[test]
fn vxlan_addresses_are_emitted_as_network_order_bytes() {
    let message = LinkVxlan::new("vxlan100", 100)
        .local(rtnetlink::Ipv4Addr::from_octets(192, 168, 0, 2))
        .build();
    let infos = link_info_of(&message).expect("link info");
    match &infos[1] {
        LinkInfo::Data(InfoData::Vxlan(entries)) => {
            assert_eq!(entries[0], InfoVxlan::Id(100));
            assert_eq!(entries[1], InfoVxlan::Local(vec![192, 168, 0, 2]));
        }
        other => panic!("expected vxlan data, got {:?}", other),
    }
}
