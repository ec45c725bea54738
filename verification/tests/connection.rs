//! The correlation engine: sequence assignment, delivery, terminal
//! handling, cancellation and dump batching.

use rtnetlink::packet_route::link::LinkMessage;
use rtnetlink::packet_route::message::RouteNetlinkMessage;
use rtnetlink::proto::{acked_outcome, check_ack};
use rtnetlink::{ConnectionActor, Error, ReplyMessage, ReplyPayload, RouteAction};

fn payload_message(sequence: u32) -> ReplyMessage {
    ReplyMessage {
        sequence,
        payload: ReplyPayload::InnerMessage(RouteNetlinkMessage::NewLink(LinkMessage::new())),
    }
}

#[test]
fn concurrent_registrations_get_distinct_sequence_numbers_and_channels() {
    let mut actor = ConnectionActor::new();
    let (seq_a, chan_a) = actor.register();
    let (seq_b, chan_b) = actor.register();
    let (seq_c, chan_c) = actor.register();
    assert_ne!(seq_a, seq_b);
    assert_ne!(seq_b, seq_c);
    assert_ne!(seq_a, seq_c);
    assert_ne!(chan_a, chan_b);
    assert_ne!(chan_b, chan_c);
    assert_eq!(actor.pending_len(), 3);
}

#[test]
fn replies_go_to_the_registered_channel_and_unsolicited_to_broadcast() {
    let mut actor = ConnectionActor::new();
    let (seq, chan) = actor.register();

    let action = actor.route_incoming(&payload_message(seq));
    assert_eq!(action, RouteAction::Deliver { channel: chan, done: false });

    // A sequence number nobody registered is an unsolicited
    // notification.
    let action = actor.route_incoming(&payload_message(seq + 1000));
    assert_eq!(action, RouteAction::Broadcast);
}

#[test]
fn ack_is_terminal_and_ends_the_registration() {
    let mut actor = ConnectionActor::new();
    let (seq, chan) = actor.register();

    let ack = ReplyMessage { sequence: seq, payload: ReplyPayload::Status(0) };
    let action = actor.route_incoming(&ack);
    assert_eq!(action, RouteAction::Deliver { channel: chan, done: true });
    assert_eq!(actor.pending_len(), 0);

    // A late reply for the completed sequence number is broadcast, not
    // delivered to the old caller.
    let action = actor.route_incoming(&payload_message(seq));
    assert_eq!(action, RouteAction::Broadcast);
}

#[test]
fn non_dump_request_sees_exactly_one_terminal_reply() {
    let mut actor = ConnectionActor::new();
    let (seq, chan) = actor.register();

    let error = ReplyMessage { sequence: seq, payload: ReplyPayload::Status(-17) };
    let first = actor.route_incoming(&error);
    assert_eq!(first, RouteAction::Deliver { channel: chan, done: true });

    // A second status for the same request cannot reach the caller:
    // the stream saw one terminal item and ended.
    let ack = ReplyMessage { sequence: seq, payload: ReplyPayload::Status(0) };
    let second = actor.route_incoming(&ack);
    assert_eq!(second, RouteAction::Broadcast);
}

#[test]
fn dump_stream_ends_at_the_done_marker() {
    let mut actor = ConnectionActor::new();
    let (seq, chan) = actor.register();

    for _ in 0..3 {
        let action = actor.route_incoming(&payload_message(seq));
        assert_eq!(action, RouteAction::Deliver { channel: chan, done: false });
    }
    let done = ReplyMessage { sequence: seq, payload: ReplyPayload::Done };
    let action = actor.route_incoming(&done);
    assert_eq!(action, RouteAction::Deliver { channel: chan, done: true });

    // Nothing more reaches the ended stream.
    let action = actor.route_incoming(&payload_message(seq));
    assert_eq!(action, RouteAction::Broadcast);
}

#[test]
fn batching_does_not_change_the_deliveries() {
    // The same replies, once routed as two batches and once as one,
    // produce the same actions.
    let mut split = ConnectionActor::new();
    let (seq, _) = split.register();
    let mut joined = ConnectionActor::new();
    let (seq_b, _) = joined.register();
    assert_eq!(seq, seq_b);

    let mut split_actions = Vec::new();
    // First datagram: two payloads; second datagram: payload plus DONE.
    for message in [payload_message(seq), payload_message(seq)] {
        split_actions.push(split.route_incoming(&message));
    }
    for message in [
        payload_message(seq),
        ReplyMessage { sequence: seq, payload: ReplyPayload::Done },
    ] {
        split_actions.push(split.route_incoming(&message));
    }

    let mut joined_actions = Vec::new();
    for message in [
        payload_message(seq),
        payload_message(seq),
        payload_message(seq),
        ReplyMessage { sequence: seq, payload: ReplyPayload::Done },
    ] {
        joined_actions.push(joined.route_incoming(&message));
    }

    assert_eq!(split_actions, joined_actions);
    assert_eq!(split.pending_len(), joined.pending_len());
}

#[test]
fn cancellation_removes_the_registration() {
    let mut actor = ConnectionActor::new();
    let (seq, chan) = actor.register();
    let _ = chan;

    assert!(actor.remove_registration(seq));
    assert_eq!(actor.pending_len(), 0);
    // Removing again reports that nothing was registered.
    assert!(!actor.remove_registration(seq));

    let action = actor.route_incoming(&payload_message(seq));
    assert_eq!(action, RouteAction::Broadcast);
}

#[test]
fn check_ack_flags_only_real_errors() {
    assert!(check_ack(&ReplyPayload::Status(0)).is_ok());
    assert!(check_ack(&ReplyPayload::Done).is_ok());
    match check_ack(&ReplyPayload::Status(-95)) {
        Err(Error::NetlinkError(em)) => assert_eq!(em.code, -95),
        other => panic!("expected a netlink error, got {:?}", other),
    }
}

#[test]
fn acked_outcome_reports_the_first_error() {
    let ok: Vec<ReplyPayload> = vec![ReplyPayload::Status(0)];
    assert!(acked_outcome(&ok).is_ok());

    let failed: Vec<ReplyPayload> = vec![
        ReplyPayload::Noop,
        ReplyPayload::Status(-17),
        ReplyPayload::Status(-95),
    ];
    match acked_outcome(&failed) {
        Err(Error::NetlinkError(em)) => assert_eq!(em.code, -17),
        other => panic!("expected a netlink error, got {:?}", other),
    }

    let empty: Vec<ReplyPayload> = Vec::new();
    assert!(acked_outcome(&empty).is_ok());
}
