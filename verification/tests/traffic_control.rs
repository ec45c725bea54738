//! Traffic-control request behaviour: the ingress qdisc, the u32
//! classifier and the redirect shorthand.

use rtnetlink::packet_route::message::RouteNetlinkMessage;
use rtnetlink::packet_route::tc::{
    TcActionAttribute, TcActionMirrorOption, TcActionOption, TcActionType, TcAttribute,
    TcFilterU32Option, TcHandle, TcMirrorActionType, TcOption,
};
use rtnetlink::proto::{NLM_F_ACK, NLM_F_CREATE, NLM_F_EXCL, NLM_F_REQUEST};
use rtnetlink::{Error, Handle};

#[test]
fn ingress_qdisc_carries_the_fixed_handle_and_kind() {
    let handle = Handle::new();
    let request = handle.qdisc().add(3).ingress();
    assert_eq!(request.message.header.parent, TcHandle { major: 0xffff, minor: 0xfff1 });
    assert_eq!(request.message.header.handle, TcHandle { major: 0xffff, minor: 0 });
    assert_eq!(
        request.message.attributes[0],
        TcAttribute::Kind(String::from("ingress"))
    );
    let wire = request.into_request();
    assert_eq!(
        wire.flags,
        NLM_F_REQUEST | NLM_F_ACK | NLM_F_EXCL | NLM_F_CREATE
    );
}

#[test]
fn redirect_builds_the_u32_match_all_filter() {
    let handle = Handle::new();
    let request = handle
        .traffic_filter(3)
        .add()
        .parent(0xffff0000)
        .protocol(0x0003)
        .redirect(4)
        .expect("a fresh request accepts one classifier");

    assert_eq!(request.message.header.parent, TcHandle { major: 0xffff, minor: 0 });
    assert_eq!(request.message.header.info, 3);
    assert_eq!(request.message.attributes[0], TcAttribute::Kind(String::from("u32")));
    match &request.message.attributes[1] {
        TcAttribute::Options(options) => {
            assert_eq!(options.len(), 2);
            match &options[0] {
                TcOption::U32(TcFilterU32Option::Selector(selector)) => {
                    assert_eq!(selector.flags, 0x1);
                    assert_eq!(selector.nkeys, 1);
                    assert_eq!(selector.keys.len(), 1);
                    assert_eq!(selector.keys[0].mask, 0);
                    assert_eq!(selector.keys[0].val, 0);
                }
                other => panic!("expected the selector, got {:?}", other),
            }
            match &options[1] {
                TcOption::U32(TcFilterU32Option::Action(actions)) => {
                    assert_eq!(actions.len(), 1);
                    assert_eq!(
                        actions[0].attributes[0],
                        TcActionAttribute::Kind(String::from("mirred"))
                    );
                    match &actions[0].attributes[1] {
                        TcActionAttribute::Options(aopts) => match &aopts[0] {
                            TcActionOption::Mirror(TcActionMirrorOption::Parms(mirror)) => {
                                assert_eq!(mirror.generic.action, TcActionType::Stolen);
                                assert_eq!(mirror.eaction, TcMirrorActionType::EgressRedir);
                                assert_eq!(mirror.ifindex, 4);
                            }
                            other => panic!("expected mirred parameters, got {:?}", other),
                        },
                        other => panic!("expected action options, got {:?}", other),
                    }
                }
                other => panic!("expected the action list, got {:?}", other),
            }
        }
        other => panic!("expected filter options, got {:?}", other),
    }
}

#[test]
fn a_second_classifier_on_the_same_request_is_rejected() {
    let handle = Handle::new();
    let result = handle
        .traffic_filter(3)
        .add()
        .parent(0xffff0000)
        .protocol(0x0003)
        .redirect(4)
        .expect("the first classifier is accepted")
        .redirect(5);
    assert!(matches!(result, Err(Error::InvalidNla(_))));
}

#[test]
fn filter_deletion_addresses_the_device() {
    let handle = Handle::new();
    let request = handle.traffic_filter(9).del().root();
    let wire = request.into_request();
    assert_eq!(wire.flags, NLM_F_REQUEST | NLM_F_ACK);
    match wire.message {
        RouteNetlinkMessage::DelTrafficFilter(message) => {
            assert_eq!(message.header.index, 9);
            assert_eq!(message.header.parent, TcHandle { major: 0xffff, minor: 0xffff });
        }
        other => panic!("expected a filter deletion, got {:?}", other),
    }
}
