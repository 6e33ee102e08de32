use myclaw::lines::Lines;
use myclaw::protocol::{ClientMessage, GatewayFrame, ServerMessage};
use myclaw::registry::ChannelId;
use tokio::sync::mpsc;
use myclaw::server::client::{handle_client_msg, ClientCommand, ClientEvent, ClientSession};
use myclaw::server::router::{Delivery, GatewayRequest, Router, RouterHandle};

const GATEWAY: ChannelId = ChannelId(100);
const CLIENT: ChannelId = ChannelId(1);

fn router_with_gateway() -> RouterHandle {
    let (mut router, _) = Router::new();
    router.gateway_up(GATEWAY, "gw-1".to_string());
    router
}

fn error_for(channel: ChannelId, message: &str) -> ClientCommand {
    ClientCommand::Enqueue(Delivery {
        channel,
        message: ServerMessage::Error { message: message.to_string() },
    })
}

fn chat(id: &str, content: &str) -> Result<ClientMessage, String> {
    Ok(ClientMessage::Chat { id: id.to_string(), content: content.to_string() })
}

#[test]
fn accepting_registers_the_session_and_reports_the_gateway_status() {
    let mut router = router_with_gateway();
    let (session, status) = ClientSession::accept(&mut router, CLIENT);
    assert_eq!(status, ServerMessage::Status { gateway_connected: true });
    assert_eq!(session.session_id().chars().count(), 36);
    assert_eq!(session.channel(), CLIENT);
    assert!(session.is_open());
    assert_eq!(router.client_channel(session.session_id()), Some(CLIENT));
}

#[test]
fn accepting_without_a_gateway_reports_it_disconnected() {
    let (mut router, _) = Router::new();
    let (_, status) = ClientSession::accept_as("s-1".to_string(), &mut router, CLIENT);
    assert_eq!(status, ServerMessage::Status { gateway_connected: false });
    assert_eq!(router.client_channel("s-1"), Some(CLIENT));
}

#[test]
fn session_identifiers_differ() {
    let (mut router, _) = Router::new();
    let (a, _) = ClientSession::accept(&mut router, ChannelId(1));
    let (b, _) = ClientSession::accept(&mut router, ChannelId(2));
    assert_ne!(a.session_id(), b.session_id());
}

#[test]
fn a_chat_message_is_forwarded_to_the_gateway() {
    let router = router_with_gateway();
    assert_eq!(
        handle_client_msg(chat("r1", "hello"), &router, CLIENT),
        ClientCommand::Forward {
            request: GatewayRequest {
                channel: GATEWAY,
                frame: GatewayFrame::chat_request("r1", "gw-1", "hello"),
            },
            request_id: "r1".to_string(),
        }
    );
}

#[test]
fn a_chat_message_without_a_gateway_is_answered_with_an_error() {
    let (router, _) = Router::new();
    assert_eq!(
        handle_client_msg(chat("r1", "hello"), &router, CLIENT),
        error_for(CLIENT, "Gateway not connected")
    );
}

#[test]
fn a_chat_message_without_a_gateway_session_is_answered_with_an_error() {
    let (mut router, _) = Router::new();
    router.set_gateway_sender(Some(GATEWAY));
    assert_eq!(
        handle_client_msg(chat("r1", "hello"), &router, CLIENT),
        error_for(CLIENT, "No gateway session")
    );
}

#[test]
fn a_ping_is_answered_with_a_pong_on_the_clients_channel() {
    let (router, _) = Router::new();
    assert_eq!(
        handle_client_msg(Ok(ClientMessage::Ping), &router, CLIENT),
        ClientCommand::Enqueue(Delivery { channel: CLIENT, message: ServerMessage::Pong })
    );
}

#[test]
fn undecodable_text_is_answered_with_the_decoders_words() {
    let (router, _) = Router::new();
    assert_eq!(
        handle_client_msg(Err("expected value at line 1 column 1".to_string()), &router, CLIENT),
        error_for(CLIENT, "Invalid message: expected value at line 1 column 1")
    );
}

#[test]
fn a_forwarded_request_becomes_pending_once_enqueued() {
    let mut router = router_with_gateway();
    let (mut session, _) = ClientSession::accept_as("s".to_string(), &mut router, CLIENT);
    let command = session.step(&mut router, ClientEvent::Text(chat("r1", "hello")));
    assert!(matches!(command, ClientCommand::Forward { .. }));
    assert!(!router.is_pending("r1"));
    let settled = ClientEvent::Forwarded { request_id: "r1".to_string(), enqueued: true };
    assert_eq!(session.step(&mut router, settled), ClientCommand::Nothing);
    assert!(router.is_pending("r1"));
    let delivery = router.dispatch_reply("r1", "answer", true).expect("pending");
    assert_eq!(delivery.channel, CLIENT);
}

#[test]
fn a_request_that_the_gateway_channel_refused_is_answered_with_an_error() {
    let mut router = router_with_gateway();
    let (mut session, _) = ClientSession::accept_as("s".to_string(), &mut router, CLIENT);
    session.step(&mut router, ClientEvent::Text(chat("r1", "hello")));
    let settled = ClientEvent::Forwarded { request_id: "r1".to_string(), enqueued: false };
    assert_eq!(session.step(&mut router, settled), error_for(CLIENT, "channel closed"));
    assert!(!router.is_pending("r1"));
}

#[test]
fn outbound_messages_are_sent_and_pings_answered() {
    let mut router = router_with_gateway();
    let (mut session, _) = ClientSession::accept_as("s".to_string(), &mut router, CLIENT);
    assert_eq!(
        session.step(&mut router, ClientEvent::Outbound(ServerMessage::Pong)),
        ClientCommand::SendMessage(ServerMessage::Pong)
    );
    assert_eq!(
        session.step(&mut router, ClientEvent::Ping(vec![9])),
        ClientCommand::SendPong(vec![9])
    );
    assert_eq!(session.step(&mut router, ClientEvent::Other), ClientCommand::Nothing);
    assert!(session.is_open());
}

#[test]
fn the_link_ends_on_close_end_and_failure() {
    let events = [
        ClientEvent::Close,
        ClientEvent::End,
        ClientEvent::ReadFailed("reset".to_string()),
        ClientEvent::WriteFailed("broken pipe".to_string()),
    ];
    for event in events {
        let mut router = router_with_gateway();
        let (mut session, _) = ClientSession::accept_as("s".to_string(), &mut router, CLIENT);
        assert_eq!(session.step(&mut router, event), ClientCommand::Finish);
        assert!(!session.is_open());
        assert_eq!(
            session.step(&mut router, ClientEvent::Text(chat("r", "late"))),
            ClientCommand::Nothing
        );
        session.close_with(&mut router, &vec![]);
        assert_eq!(router.client_channel("s"), None);
    }
}

#[test]
fn closing_a_session_drops_what_it_was_waiting_for() {
    let mut router = router_with_gateway();
    let (mut session, _) = ClientSession::accept_as("s".to_string(), &mut router, CLIENT);
    session.step(&mut router, ClientEvent::Text(chat("r1", "hello")));
    session.step(
        &mut router,
        ClientEvent::Forwarded { request_id: "r1".to_string(), enqueued: true },
    );
    session.step(&mut router, ClientEvent::Close);
    session.close_with(&mut router, &vec![]);
    assert!(!router.is_pending("r1"));
    assert_eq!(router.dispatch_reply("r1", "late", true), None);
}

#[test]
fn closing_a_session_closes_its_channel() {
    let mut router = router_with_gateway();
    let mut lines: Lines<mpsc::Sender<ServerMessage>> = Lines::new();
    let (tx, mut rx) = mpsc::channel(4);
    let (other_tx, _other_rx) = mpsc::channel(4);
    let channel = lines.open(tx).expect("a name is left");
    let other = lines.open(other_tx).expect("a name is left");
    let (mut session, _) = ClientSession::accept(&mut router, channel);
    let id = session.session_id().to_string();
    session.step(&mut router, ClientEvent::Text(chat("r1", "hello")));
    session.step(
        &mut router,
        ClientEvent::Forwarded { request_id: "r1".to_string(), enqueued: true },
    );
    session.step(&mut router, ClientEvent::End);
    session.close(&mut router, &mut lines);
    assert!(!lines.is_open(channel));
    assert!(lines.is_open(other));
    assert_eq!(router.client_channel(&id), None);
    assert!(!router.is_pending("r1"));
    assert_eq!(router.dispatch_reply("r1", "late", true), None);
    assert!(rx.try_recv().is_err());
}
