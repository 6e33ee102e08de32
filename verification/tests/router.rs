use myclaw::lines::Lines;
use myclaw::protocol::{GatewayFrame, ServerMessage};
use myclaw::registry::ChannelId;
use tokio::sync::mpsc;
use myclaw::server::router::{Delivery, GatewayRequest, GatewayUnavailable, Router, RouterHandle};

const GATEWAY: ChannelId = ChannelId(100);

fn connected_router() -> RouterHandle {
    let (mut router, _) = Router::new();
    router.set_gateway_session("gw-session".to_string());
    router.set_gateway_connected(true);
    router.set_gateway_sender(Some(GATEWAY));
    router
}

fn send(router: &mut RouterHandle, request_id: &str, content: &str, client: ChannelId) {
    let request = router.send_to_gateway(request_id, content).expect("gateway is available");
    assert_eq!(request.channel, GATEWAY);
    assert_eq!(router.request_enqueued(request_id, client, true), Ok(()));
}

fn reply_parts(delivery: Delivery) -> (ChannelId, String, String, String, bool) {
    match delivery.message {
        ServerMessage::ChatReply { id, request_id, content, done } => {
            (delivery.channel, id, request_id, content, done)
        }
        other => panic!("not a chat reply: {other:?}"),
    }
}

#[test]
fn a_new_router_knows_no_gateway() {
    let (router, _) = Router::new();
    assert!(!router.is_gateway_connected());
    assert_eq!(router.pending_len(), 0);
    assert_eq!(router.client_channel("anyone"), None);
}

#[test]
fn gateway_unavailable_before_anything_is_published() {
    let (router, _) = Router::new();
    assert_eq!(router.send_to_gateway("r1", "hello"), Err(GatewayUnavailable::NotConnected));
    assert_eq!(router.pending_len(), 0);
    assert!(!router.is_pending("r1"));
}

#[test]
fn a_sender_without_a_session_is_not_enough() {
    let (mut router, _) = Router::new();
    router.set_gateway_sender(Some(GATEWAY));
    assert_eq!(router.send_to_gateway("r1", "hello"), Err(GatewayUnavailable::NoSession));
    assert_eq!(router.pending_len(), 0);
}

#[test]
fn a_session_without_a_sender_is_not_enough() {
    let (mut router, _) = Router::new();
    router.set_gateway_session("s".to_string());
    router.set_gateway_connected(true);
    assert_eq!(router.send_to_gateway("r1", "hello"), Err(GatewayUnavailable::NotConnected));
}

#[test]
fn a_request_is_built_for_the_published_session() {
    let router = connected_router();
    assert_eq!(
        router.send_to_gateway("r1", "hello"),
        Ok(GatewayRequest {
            channel: GATEWAY,
            frame: GatewayFrame::ChatRequest {
                request_id: "r1".to_string(),
                session_id: "gw-session".to_string(),
                content: "hello".to_string(),
            },
        })
    );
    assert_eq!(router.pending_len(), 0);
}

#[test]
fn a_refused_enqueue_fails_the_request_and_records_nothing() {
    let mut router = connected_router();
    router.send_to_gateway("r1", "hello").expect("gateway is available");
    assert_eq!(
        router.request_enqueued("r1", ChannelId(1), false),
        Err(GatewayUnavailable::ChannelClosed)
    );
    assert!(!router.is_pending("r1"));
    assert_eq!(router.pending_len(), 0);
}

#[test]
fn a_refused_enqueue_keeps_an_earlier_entry_under_the_same_id() {
    let mut router = connected_router();
    send(&mut router, "r1", "first", ChannelId(1));
    assert_eq!(
        router.request_enqueued("r1", ChannelId(2), false),
        Err(GatewayUnavailable::ChannelClosed)
    );
    let delivery = router.dispatch_reply("r1", "x", true).expect("still pending");
    assert_eq!(delivery.channel, ChannelId(1));
}

#[test]
fn sending_again_under_a_pending_id_overwrites() {
    let mut router = connected_router();
    send(&mut router, "r1", "first", ChannelId(1));
    send(&mut router, "r1", "second", ChannelId(2));
    assert_eq!(router.pending_len(), 1);
    let delivery = router.dispatch_reply("r1", "answer", true).expect("pending");
    assert_eq!(delivery.channel, ChannelId(2));
    assert_eq!(router.dispatch_reply("r1", "again", true), None);
}

#[test]
fn reply_correlation() {
    let mut router = connected_router();
    router.register_client("c1".to_string(), ChannelId(1));
    send(&mut router, "r", "question", ChannelId(1));

    let first = router.dispatch_reply("r", "hello", false).expect("r is pending");
    let (channel, first_id, request_id, content, done) = reply_parts(first);
    assert_eq!(channel, ChannelId(1));
    assert_eq!(request_id, "r");
    assert_eq!(content, "hello");
    assert!(!done);
    assert!(router.is_pending("r"));

    let second = router.dispatch_reply("r", "!", true).expect("r is still pending");
    let (channel, second_id, request_id, content, done) = reply_parts(second);
    assert_eq!(channel, ChannelId(1));
    assert_eq!(request_id, "r");
    assert_eq!(content, "!");
    assert!(done);
    assert!(!router.is_pending("r"));
    assert_ne!(first_id, second_id);
    assert_ne!(first_id, "r");

    assert_eq!(router.dispatch_reply("r", "late", false), None);
    assert_eq!(router.dispatch_reply("r", "late", true), None);
}

#[test]
fn reply_identifiers_are_fresh_and_hyphenated() {
    let mut router = connected_router();
    send(&mut router, "r", "q", ChannelId(1));
    let (_, a, ..) = reply_parts(router.dispatch_reply("r", "1", false).expect("pending"));
    let (_, b, ..) = reply_parts(router.dispatch_reply("r", "2", false).expect("pending"));
    assert_eq!(a.chars().count(), 36);
    assert_eq!(b.chars().count(), 36);
    assert_ne!(a, b);
}

#[test]
fn dispatch_reply_as_uses_the_given_identifier() {
    let mut router = connected_router();
    send(&mut router, "r", "q", ChannelId(5));
    assert_eq!(
        router.dispatch_reply_as("reply-1".to_string(), "r", "chunk", false),
        Some(Delivery {
            channel: ChannelId(5),
            message: ServerMessage::ChatReply {
                id: "reply-1".to_string(),
                request_id: "r".to_string(),
                content: "chunk".to_string(),
                done: false,
            },
        })
    );
    assert!(router.is_pending("r"));
}

#[test]
fn a_reply_for_an_unknown_request_is_dropped() {
    let mut router = connected_router();
    send(&mut router, "known", "q", ChannelId(1));
    assert_eq!(router.dispatch_reply("unknown", "x", false), None);
    assert_eq!(router.dispatch_reply("unknown", "x", true), None);
    assert!(router.is_pending("known"));
    assert_eq!(router.pending_len(), 1);
}

#[test]
fn unregistration_drops_dangling_pendings() {
    let mut router = connected_router();
    router.register_client("c".to_string(), ChannelId(1));
    send(&mut router, "r", "question", ChannelId(1));
    router.unregister_client_with("c", &vec![]);
    assert_eq!(router.client_channel("c"), None);
    assert!(!router.is_pending("r"));
    assert_eq!(router.dispatch_reply("r", "late", false), None);
    assert_eq!(router.dispatch_reply("r", "late", true), None);
}

#[test]
fn unregistration_keeps_the_requests_of_other_clients() {
    let mut router = connected_router();
    router.register_client("a".to_string(), ChannelId(1));
    router.register_client("b".to_string(), ChannelId(2));
    send(&mut router, "ra", "q", ChannelId(1));
    send(&mut router, "rb", "q", ChannelId(2));
    router.unregister_client_with("a", &vec![]);
    assert!(!router.is_pending("ra"));
    assert!(router.is_pending("rb"));
    assert_eq!(router.client_channel("b"), Some(ChannelId(2)));
}

#[test]
fn unregistration_prunes_the_channels_found_closed() {
    let mut router = connected_router();
    router.register_client("a".to_string(), ChannelId(1));
    router.register_client("b".to_string(), ChannelId(2));
    router.register_client("c".to_string(), ChannelId(3));
    send(&mut router, "ra", "q", ChannelId(1));
    send(&mut router, "rb", "q", ChannelId(2));
    send(&mut router, "rc", "q", ChannelId(3));
    router.unregister_client_with("a", &vec![ChannelId(3)]);
    assert!(!router.is_pending("ra"));
    assert!(router.is_pending("rb"));
    assert!(!router.is_pending("rc"));
    assert_eq!(router.client_channel("c"), Some(ChannelId(3)));
}

#[test]
fn unregistering_an_unknown_session_only_prunes() {
    let mut router = connected_router();
    send(&mut router, "r1", "q", ChannelId(1));
    send(&mut router, "r2", "q", ChannelId(2));
    router.unregister_client_with("nobody", &vec![ChannelId(2)]);
    assert!(router.is_pending("r1"));
    assert!(!router.is_pending("r2"));
}

#[test]
fn registering_again_replaces_the_channel() {
    let (mut router, _) = Router::new();
    router.register_client("c".to_string(), ChannelId(1));
    router.register_client("c".to_string(), ChannelId(2));
    assert_eq!(router.client_channel("c"), Some(ChannelId(2)));
}

#[test]
fn withdrawing_the_sender_makes_the_gateway_unavailable() {
    let mut router = connected_router();
    router.set_gateway_sender(None);
    assert_eq!(router.send_to_gateway("r", "q"), Err(GatewayUnavailable::NotConnected));
}

#[test]
fn gateway_up_and_down_publish_all_fields_together() {
    let (mut router, _) = Router::new();
    router.gateway_up(GATEWAY, "s9".to_string());
    assert!(router.is_gateway_connected());
    let request = router.send_to_gateway("r", "q").expect("available");
    assert_eq!(request.frame, GatewayFrame::chat_request("r", "s9", "q"));
    router.gateway_down();
    assert!(!router.is_gateway_connected());
    assert_eq!(router.send_to_gateway("r", "q"), Err(GatewayUnavailable::NotConnected));
}

#[test]
fn requests_in_flight_survive_a_gateway_reconnect() {
    let mut router = connected_router();
    send(&mut router, "r", "q", ChannelId(1));
    router.gateway_down();
    router.gateway_up(ChannelId(101), "s2".to_string());
    assert!(router.is_pending("r"));
}

#[test]
fn unavailable_messages() {
    assert_eq!(GatewayUnavailable::NotConnected.message(), "Gateway not connected");
    assert_eq!(GatewayUnavailable::NoSession.message(), "No gateway session");
    assert_eq!(GatewayUnavailable::ChannelClosed.message(), "channel closed");
}

#[test]
fn unregistration_prunes_the_queues_whose_receiver_is_gone() {
    let mut router = connected_router();
    let mut lines: Lines<mpsc::Sender<ServerMessage>> = Lines::new();
    let (tx_a, rx_a) = mpsc::channel(4);
    let (tx_b, rx_b) = mpsc::channel(4);
    let (tx_c, _rx_c) = mpsc::channel(4);
    let a = lines.open(tx_a).expect("a name is left");
    let b = lines.open(tx_b).expect("a name is left");
    let c = lines.open(tx_c).expect("a name is left");
    router.register_client("a".to_string(), a);
    router.register_client("b".to_string(), b);
    router.register_client("c".to_string(), c);
    send(&mut router, "ra", "q", a);
    send(&mut router, "rb", "q", b);
    send(&mut router, "rc", "q", c);

    drop(rx_b);
    router.unregister_client("a", &lines);
    assert!(!router.is_pending("ra"));
    assert!(!router.is_pending("rb"));
    assert!(router.is_pending("rc"));
    assert_eq!(router.client_channel("a"), None);
    assert_eq!(router.client_channel("b"), Some(b));
    drop(rx_a);
}

#[test]
fn unregistration_with_all_queues_alive_drops_only_the_owners_requests() {
    let mut router = connected_router();
    let mut lines: Lines<mpsc::Sender<ServerMessage>> = Lines::new();
    let (tx_a, _rx_a) = mpsc::channel(4);
    let (tx_b, _rx_b) = mpsc::channel(4);
    let a = lines.open(tx_a).expect("a name is left");
    let b = lines.open(tx_b).expect("a name is left");
    router.register_client("a".to_string(), a);
    router.register_client("b".to_string(), b);
    send(&mut router, "ra", "q", a);
    send(&mut router, "rb", "q", b);
    router.unregister_client("a", &lines);
    assert!(!router.is_pending("ra"));
    assert!(router.is_pending("rb"));
}
