use myclaw::protocol::{GatewayFrame, ServerMessage};
use myclaw::registry::ChannelId;
use myclaw::server::config::GatewayConfig;
use myclaw::server::gateway::{
    handle_gateway_msg, GatewayCommand, GatewayError, GatewayEvent, GatewaySession, Phase,
    Supervisor,
};
use myclaw::server::router::{GatewayUnavailable, Router, RouterHandle};

const LINK: ChannelId = ChannelId(7);

fn config() -> GatewayConfig {
    GatewayConfig {
        url: "ws://127.0.0.1:18789".to_string(),
        node_id: "node-1".to_string(),
        heartbeat_interval_secs: 30,
        reconnect_base_ms: 500,
        reconnect_max_ms: 4000,
    }
}

fn awaiting_ack() -> (GatewaySession, RouterHandle) {
    let (mut router, _) = Router::new();
    let mut session = GatewaySession::new(&config(), LINK);
    session.step(&mut router, GatewayEvent::Opened);
    (session, router)
}

fn connected() -> (GatewaySession, RouterHandle) {
    let (mut session, mut router) = awaiting_ack();
    let ack = GatewayFrame::Connected { session_id: "gw-1".to_string() };
    session.step(&mut router, GatewayEvent::Frame(ack));
    (session, router)
}

fn handshake_failure(event: GatewayEvent) -> GatewayError {
    let (mut session, mut router) = awaiting_ack();
    assert_eq!(session.step(&mut router, event), GatewayCommand::Finish);
    assert_eq!(session.phase(), Phase::Errored);
    assert!(!router.is_gateway_connected());
    assert_eq!(router.send_to_gateway("r", "q"), Err(GatewayUnavailable::NotConnected));
    match session.outcome() {
        Some(Err(error)) => error.clone(),
        other => panic!("no failure recorded: {other:?}"),
    }
}

#[test]
fn a_new_session_is_connecting() {
    let session = GatewaySession::new(&config(), LINK);
    assert_eq!(session.phase(), Phase::Connecting);
    assert_eq!(session.outcome(), None);
    assert_eq!(session.idle_limit(), None);
}

#[test]
fn opening_the_link_sends_the_connect_frame() {
    let (mut router, _) = Router::new();
    let mut session = GatewaySession::new(&config(), LINK);
    assert_eq!(
        session.step(&mut router, GatewayEvent::Opened),
        GatewayCommand::SendFrame(GatewayFrame::Connect {
            role: "node".to_string(),
            node_id: "node-1".to_string(),
        })
    );
    assert_eq!(session.phase(), Phase::AwaitingHandshakeAck);
}

#[test]
fn a_link_that_does_not_open_fails_the_attempt() {
    let (mut router, _) = Router::new();
    let mut session = GatewaySession::new(&config(), LINK);
    let command = session.step(&mut router, GatewayEvent::ConnectFailed("refused".to_string()));
    assert_eq!(command, GatewayCommand::Finish);
    assert_eq!(session.outcome(), Some(Err(&GatewayError::Transport("refused".to_string()))));
}

#[test]
fn the_acknowledgement_publishes_the_gateway() {
    let (mut session, mut router) = awaiting_ack();
    let ack = GatewayFrame::Connected { session_id: "gw-1".to_string() };
    assert_eq!(
        session.step(&mut router, GatewayEvent::Frame(ack)),
        GatewayCommand::StartDraining(LINK)
    );
    assert_eq!(session.phase(), Phase::Connected);
    assert!(router.is_gateway_connected());
    let request = router.send_to_gateway("r", "q").expect("gateway is up");
    assert_eq!(request.channel, LINK);
    assert_eq!(request.frame, GatewayFrame::chat_request("r", "gw-1", "q"));
}

#[test]
fn a_rejection_fails_the_attempt_with_the_gateways_message() {
    let error = handshake_failure(GatewayEvent::Frame(GatewayFrame::Error {
        message: "bad node".to_string(),
    }));
    assert_eq!(error, GatewayError::Rejected("bad node".to_string()));
    assert_eq!(error.message(), "Gateway rejected: bad node");
}

#[test]
fn any_other_frame_fails_the_handshake() {
    let error = handshake_failure(GatewayEvent::Frame(GatewayFrame::Pong { timestamp: 1 }));
    assert_eq!(error, GatewayError::UnexpectedFrame);
    assert_eq!(error.message(), "Unexpected frame during handshake");
}

#[test]
fn a_non_text_frame_fails_the_handshake() {
    for event in [GatewayEvent::Ping(vec![1]), GatewayEvent::Close, GatewayEvent::Other] {
        let error = handshake_failure(event);
        assert_eq!(error, GatewayError::NonTextFrame);
        assert_eq!(error.message(), "Non-text frame during handshake");
    }
}

#[test]
fn the_end_of_the_link_fails_the_handshake() {
    let error = handshake_failure(GatewayEvent::End);
    assert_eq!(error, GatewayError::ClosedDuringHandshake);
    assert_eq!(error.message(), "Connection closed during handshake");
}

#[test]
fn undecodable_text_fails_the_handshake() {
    let error = handshake_failure(GatewayEvent::Malformed("expected value".to_string()));
    assert_eq!(error, GatewayError::Malformed("expected value".to_string()));
    assert_eq!(error.message(), "expected value");
}

#[test]
fn a_transport_failure_fails_the_handshake() {
    let error = handshake_failure(GatewayEvent::ReadFailed("reset".to_string()));
    assert_eq!(error, GatewayError::Transport("reset".to_string()));
    let error = handshake_failure(GatewayEvent::WriteFailed("broken pipe".to_string()));
    assert_eq!(error.message(), "broken pipe");
}

#[test]
fn heartbeat_liveness() {
    let (mut session, mut router) = connected();
    assert_eq!(session.idle_limit(), Some(30));
    match session.step(&mut router, GatewayEvent::HeartbeatDue) {
        GatewayCommand::SendFrame(GatewayFrame::Ping { timestamp }) => {
            assert!(timestamp > 1_600_000_000)
        }
        other => panic!("no ping: {other:?}"),
    }
    assert_eq!(session.phase(), Phase::Connected);
    assert_eq!(session.idle_limit(), Some(30));
    assert!(matches!(
        session.step(&mut router, GatewayEvent::HeartbeatDue),
        GatewayCommand::SendFrame(GatewayFrame::Ping { .. })
    ));
}

#[test]
fn no_heartbeat_outside_the_connected_phase() {
    let (mut session, mut router) = awaiting_ack();
    assert_eq!(session.idle_limit(), None);
    assert_eq!(session.step(&mut router, GatewayEvent::HeartbeatDue), GatewayCommand::Nothing);
    assert_eq!(session.phase(), Phase::AwaitingHandshakeAck);
}

#[test]
fn outbound_text_is_sent_as_it_is() {
    let (mut session, mut router) = connected();
    assert_eq!(
        session.step(&mut router, GatewayEvent::Outbound("{\"type\":\"x\"}".to_string())),
        GatewayCommand::SendText("{\"type\":\"x\"}".to_string())
    );
}

#[test]
fn a_ping_from_the_gateway_is_answered_with_a_pong() {
    let (mut session, mut router) = connected();
    assert_eq!(
        session.step(&mut router, GatewayEvent::Ping(vec![1, 2, 3])),
        GatewayCommand::SendPong(vec![1, 2, 3])
    );
}

#[test]
fn a_chat_response_is_routed_to_the_waiting_client() {
    let (mut session, mut router) = connected();
    router.send_to_gateway("r1", "question").expect("gateway is up");
    router.request_enqueued("r1", ChannelId(1), true).expect("enqueued");
    let response = GatewayFrame::ChatResponse {
        request_id: "r1".to_string(),
        session_id: "gw-1".to_string(),
        content: "answer".to_string(),
        done: true,
    };
    match session.step(&mut router, GatewayEvent::Frame(response)) {
        GatewayCommand::Deliver(delivery) => {
            assert_eq!(delivery.channel, ChannelId(1));
            match delivery.message {
                ServerMessage::ChatReply { request_id, content, done, .. } => {
                    assert_eq!(request_id, "r1");
                    assert_eq!(content, "answer");
                    assert!(done);
                }
                other => panic!("not a reply: {other:?}"),
            }
        }
        other => panic!("nothing delivered: {other:?}"),
    }
    assert!(!router.is_pending("r1"));
}

#[test]
fn a_chat_response_for_nobody_is_dropped() {
    let (mut session, mut router) = connected();
    let response = GatewayFrame::ChatResponse {
        request_id: "ghost".to_string(),
        session_id: "gw-1".to_string(),
        content: "answer".to_string(),
        done: false,
    };
    assert_eq!(session.step(&mut router, GatewayEvent::Frame(response)), GatewayCommand::Nothing);
    assert_eq!(session.phase(), Phase::Connected);
}

#[test]
fn other_frames_and_undecodable_text_are_ignored_while_connected() {
    let (mut session, mut router) = connected();
    let events = [
        GatewayEvent::Frame(GatewayFrame::Pong { timestamp: 5 }),
        GatewayEvent::Frame(GatewayFrame::Error { message: "oops".to_string() }),
        GatewayEvent::Frame(GatewayFrame::Connected { session_id: "again".to_string() }),
        GatewayEvent::Malformed("not json".to_string()),
        GatewayEvent::Other,
        GatewayEvent::Opened,
    ];
    for event in events {
        assert_eq!(session.step(&mut router, event), GatewayCommand::Nothing);
        assert_eq!(session.phase(), Phase::Connected);
        assert!(router.is_gateway_connected());
    }
    let request = router.send_to_gateway("r", "q").expect("gateway is still up");
    assert_eq!(request.frame, GatewayFrame::chat_request("r", "gw-1", "q"));
}

#[test]
fn a_close_ends_the_session_cleanly_and_withdraws_the_sender() {
    for event in [GatewayEvent::Close, GatewayEvent::End] {
        let (mut session, mut router) = connected();
        assert_eq!(session.step(&mut router, event), GatewayCommand::Finish);
        assert_eq!(session.phase(), Phase::Closed);
        assert_eq!(session.outcome(), Some(Ok(())));
        assert!(!router.is_gateway_connected());
        assert_eq!(router.send_to_gateway("r", "q"), Err(GatewayUnavailable::NotConnected));
    }
}

#[test]
fn a_failure_while_connected_withdraws_the_sender_too() {
    let (mut session, mut router) = connected();
    let command = session.step(&mut router, GatewayEvent::WriteFailed("reset".to_string()));
    assert_eq!(command, GatewayCommand::Finish);
    assert_eq!(session.outcome(), Some(Err(&GatewayError::Transport("reset".to_string()))));
    assert!(!router.is_gateway_connected());
    assert_eq!(router.send_to_gateway("r", "q"), Err(GatewayUnavailable::NotConnected));
}

#[test]
fn a_finished_session_ignores_everything() {
    let (mut session, mut router) = connected();
    session.step(&mut router, GatewayEvent::Close);
    assert_eq!(session.step(&mut router, GatewayEvent::HeartbeatDue), GatewayCommand::Nothing);
    assert_eq!(
        session.step(&mut router, GatewayEvent::Outbound("x".to_string())),
        GatewayCommand::Nothing
    );
    assert_eq!(session.phase(), Phase::Closed);
}

#[test]
fn handle_gateway_msg_routes_only_chat_responses() {
    let (_, mut router) = connected();
    router.request_enqueued("r1", ChannelId(4), true).expect("enqueued");
    assert_eq!(handle_gateway_msg(GatewayFrame::Pong { timestamp: 0 }, &mut router), None);
    assert_eq!(
        handle_gateway_msg(GatewayFrame::Error { message: "e".to_string() }, &mut router),
        None
    );
    assert!(router.is_pending("r1"));
    let response = GatewayFrame::ChatResponse {
        request_id: "r1".to_string(),
        session_id: "ignored".to_string(),
        content: "chunk".to_string(),
        done: false,
    };
    let delivery = handle_gateway_msg(response, &mut router).expect("r1 is pending");
    assert_eq!(delivery.channel, ChannelId(4));
    assert!(router.is_pending("r1"));
}

#[test]
fn the_supervisor_backs_off_and_marks_the_gateway_disconnected() {
    let (mut router, _) = Router::new();
    router.set_gateway_connected(true);
    let mut supervisor = Supervisor::new(&config());
    assert_eq!(supervisor.attempt_finished(&mut router, false), 500);
    assert!(!router.is_gateway_connected());
    assert_eq!(supervisor.attempt_finished(&mut router, false), 1000);
    assert_eq!(supervisor.attempt_finished(&mut router, false), 2000);
    assert_eq!(supervisor.attempt_finished(&mut router, false), 4000);
    assert_eq!(supervisor.attempt_finished(&mut router, false), 4000);
    assert_eq!(supervisor.attempt_finished(&mut router, true), 500);
    assert_eq!(supervisor.attempt_finished(&mut router, false), 1000);
}
