use whatsandra::client::{AuthPhase, Client, ClientConfig, DeviceStore, LogLevel};
use whatsandra::dispatch::{EventDispatcher, RecorderSink};
use whatsandra::error::WhatsAppError;
use whatsandra::websocket::{ReaderInput, ReaderOutcome, WebSocketHandler, WebSocketMessage};
use whatsandra::{Event, JID};

fn test_config() -> ClientConfig {
    ClientConfig { store_path: "test_store".to_string(), log_level: LogLevel::Debug }
}

fn fresh_client() -> Client<RecorderSink> {
    Client::new(test_config(), DeviceStore::new("test_store/store.json"))
}

fn connected_authenticated_client() -> Client<RecorderSink> {
    let mut client = fresh_client();
    client.connect(true).unwrap();
    client.generate_qr_code().unwrap();
    client
        .confirm_pairing(JID::new("someone", "s.whatsapp.net", None))
        .unwrap();
    client
}

#[test]
fn send_order_is_fifo() {
    let mut client = connected_authenticated_client();
    let m1 = client.create_user_message("alice", "first").unwrap();
    let m2 = client.create_user_message("alice", "second").unwrap();
    let m3 = client.create_user_message("alice", "third").unwrap();
    client.send_message(&m1).unwrap();
    client.send_message(&m2).unwrap();
    client.send_message(&m3).unwrap();
    let mut seen = Vec::new();
    while let Some(frame) = client.next_outbound() {
        match frame {
            WebSocketMessage::Text(json) => seen.push(json),
            _ => panic!("only text frames were enqueued"),
        }
    }
    assert_eq!(seen.len(), 3);
    assert!(seen[0].contains("\"first\""));
    assert!(seen[1].contains("\"second\""));
    assert!(seen[2].contains("\"third\""));
}

#[test]
fn send_fails_with_auth_error_when_unauthenticated() {
    let mut client = fresh_client();
    client.connect(true).unwrap();
    assert!(!client.is_authenticated());
    let message = client.create_user_message("bob", "hello").unwrap();
    match client.send_message(&message) {
        Err(WhatsAppError::AuthError(_)) => {},
        other => panic!("expected an auth error, got {:?}", other.map(|_| ())),
    }
}

#[test]
fn send_fails_with_auth_error_while_pairing() {
    let mut client = fresh_client();
    client.connect(true).unwrap();
    client.generate_qr_code().unwrap();
    assert!(!client.is_authenticated());
    let message = client.create_user_message("bob", "hello").unwrap();
    match client.send_message(&message) {
        Err(WhatsAppError::AuthError(_)) => {},
        other => panic!("expected an auth error, got {:?}", other.map(|_| ())),
    }
}

#[test]
fn send_fails_with_connection_error_when_disconnected() {
    // Never connected, not authenticated.
    let mut client = fresh_client();
    let message = client.create_user_message("bob", "hello").unwrap();
    match client.send_message(&message) {
        Err(WhatsAppError::ConnectionError(_)) => {},
        other => panic!("expected a connection error, got {:?}", other.map(|_| ())),
    }
    // Authenticated but never connected: the connection is still checked first.
    let mut client = fresh_client();
    client.generate_qr_code().unwrap();
    client
        .confirm_pairing(JID::new("someone", "s.whatsapp.net", None))
        .unwrap();
    assert!(client.is_authenticated());
    let message = client.create_user_message("bob", "hello").unwrap();
    match client.send_message(&message) {
        Err(WhatsAppError::ConnectionError(_)) => {},
        other => panic!("expected a connection error, got {:?}", other.map(|_| ())),
    }
}

#[test]
fn logout_revokes_authentication() {
    let mut client = connected_authenticated_client();
    assert!(client.is_authenticated());
    client.logout().unwrap();
    assert!(!client.is_authenticated());
    // Reconnect without authenticating again: sending hits the auth gate.
    client.connect(true).unwrap();
    let message = client.create_user_message("bob", "hello").unwrap();
    match client.send_message(&message) {
        Err(WhatsAppError::AuthError(_)) => {},
        other => panic!("expected an auth error, got {:?}", other.map(|_| ())),
    }
}

#[test]
fn device_identity_is_stable_across_constructions() {
    let first = Client::<RecorderSink>::new(test_config(), DeviceStore::new("p/store.json"));
    let id1 = first.get_device_id();
    assert!(!id1.is_empty());
    // Reuse the store the first construction left behind.
    let second = Client::<RecorderSink>::new(test_config(), first.store);
    let id2 = second.get_device_id();
    assert_eq!(id1, id2);
}

#[test]
fn dispatch_reaches_every_observer_despite_failures() {
    let mut dispatcher: EventDispatcher<RecorderSink> = EventDispatcher::new();
    dispatcher.register(RecorderSink::new(true));
    dispatcher.register(RecorderSink::new(false)); // this observer reports failure
    dispatcher.register(RecorderSink::new(true));
    dispatcher.dispatch(&Event::Connected);
    assert_eq!(dispatcher.count(), 3);
    for sink in &dispatcher.sinks {
        assert_eq!(sink.events.len(), 1);
        assert!(matches!(sink.events[0], Event::Connected));
    }
}

#[test]
fn pairing_token_is_issued_without_authenticating() {
    let mut client = fresh_client();
    let token = client.generate_qr_code().unwrap();
    assert!(!token.is_empty());
    assert!(token.starts_with("whatsapp://"));
    assert!(!client.is_authenticated());
    // Only the explicit confirmation authenticates.
    client
        .confirm_pairing(JID::new("someone", "s.whatsapp.net", None))
        .unwrap();
    assert!(client.is_authenticated());
}

#[test]
fn confirm_pairing_without_token_is_an_auth_error() {
    let mut client = fresh_client();
    match client.confirm_pairing(JID::new("someone", "s.whatsapp.net", None)) {
        Err(WhatsAppError::AuthError(_)) => {},
        other => panic!("expected an auth error, got {:?}", other),
    }
}

#[test]
fn failed_dial_raises_disconnected_exactly_once() {
    let mut client = fresh_client();
    client.add_event_handler(RecorderSink::new(true));
    match client.connect(false) {
        Err(WhatsAppError::ConnectionError(_)) => {},
        other => panic!("expected a connection error, got {:?}", other),
    }
    assert!(!client.is_connected());
    let events = &client.event_handlers.sinks[0].events;
    assert_eq!(events.len(), 1);
    assert!(matches!(events[0], Event::Disconnected));
}

#[test]
fn bounded_queue_rejects_overflow() {
    let mut handler = WebSocketHandler::with_capacity("wss://example.invalid/ws", 3);
    handler.connect(true).unwrap();
    for i in 0..3u8 {
        handler.send(WebSocketMessage::Binary(vec![i])).unwrap();
    }
    match handler.send(WebSocketMessage::Binary(vec![9])) {
        Err(WhatsAppError::ConnectionError(_)) => {},
        other => panic!("expected the backpressure rejection, got {:?}", other),
    }
    // The queue held its bound: exactly three frames drain, in order.
    for i in 0..3u8 {
        match handler.writer_take() {
            Some(WebSocketMessage::Binary(data)) => assert_eq!(data, vec![i]),
            other => panic!("expected a binary frame, got {:?}", other),
        }
    }
    assert!(handler.writer_take().is_none());
}

#[test]
fn reader_ping_queues_automatic_pong() {
    let mut handler = WebSocketHandler::new("wss://example.invalid/ws");
    handler.connect(true).unwrap();
    match handler.reader_step(ReaderInput::Frame(WebSocketMessage::Ping)) {
        ReaderOutcome::PongQueued => {},
        other => panic!("expected a queued pong, got {:?}", other),
    }
    assert!(matches!(handler.writer_take(), Some(WebSocketMessage::Pong)));
}

#[test]
fn reader_close_terminates_and_reports_once() {
    let mut client = fresh_client();
    client.add_event_handler(RecorderSink::new(true));
    client.connect(true).unwrap();
    let outcome = client.handle_inbound(ReaderInput::Frame(WebSocketMessage::Close));
    assert!(matches!(outcome, ReaderOutcome::Terminated));
    assert!(!client.is_connected());
    let events = &client.event_handlers.sinks[0].events;
    // One Connected from the dial, then exactly one Disconnected.
    assert_eq!(events.len(), 2);
    assert!(matches!(events[0], Event::Connected));
    assert!(matches!(events[1], Event::Disconnected));
}

#[test]
fn reader_delivers_data_frames() {
    let mut handler = WebSocketHandler::new("wss://example.invalid/ws");
    handler.connect(true).unwrap();
    let outcome = handler.reader_step(ReaderInput::Frame(WebSocketMessage::Text(
        "payload".to_string(),
    )));
    match outcome {
        ReaderOutcome::Deliver(WebSocketMessage::Text(t)) => assert_eq!(t, "payload"),
        other => panic!("expected delivery, got {:?}", other),
    }
    assert!(handler.is_connected());
}

#[test]
fn disconnect_closes_queue_and_reports_second_call() {
    let mut handler = WebSocketHandler::new("wss://example.invalid/ws");
    handler.connect(true).unwrap();
    handler.disconnect().unwrap();
    assert!(!handler.is_connected());
    // The Close frame was enqueued for the writer.
    assert!(matches!(handler.writer_take(), Some(WebSocketMessage::Close)));
    match handler.disconnect() {
        Err(WhatsAppError::ConnectionError(_)) => {},
        other => panic!("expected a connection error, got {:?}", other),
    }
}

#[test]
fn device_store_set_get_remove() {
    let mut store = DeviceStore::new("p/store.json");
    assert!(store.get("k").is_none());
    store.set("k", "v1").unwrap();
    assert_eq!(store.get("k").unwrap(), "v1");
    store.set("k", "v2").unwrap();
    assert_eq!(store.get("k").unwrap(), "v2");
    store.set("other", "x").unwrap();
    store.remove("k").unwrap();
    assert!(store.get("k").is_none());
    assert_eq!(store.get("other").unwrap(), "x");
    store.remove("never-there").unwrap();
}

#[test]
fn logout_drops_persisted_credentials() {
    let mut client = connected_authenticated_client();
    client.store.set("credentials", "secret-blob").unwrap();
    client.store.set("device_id_backup", "keep-me").unwrap();
    client.logout().unwrap();
    assert!(client.store.get("credentials").is_none());
    assert_eq!(client.store.get("device_id_backup").unwrap(), "keep-me");
}

#[test]
fn auth_phase_starts_unauthenticated() {
    let client = fresh_client();
    assert!(matches!(client.auth_state, AuthPhase::Unauthenticated));
    assert!(!client.is_connected());
    assert!(!client.is_authenticated());
}

#[test]
fn error_messages_name_their_kind() {
    let e = WhatsAppError::ConnectionError("socket refused".to_string());
    assert_eq!(e.message(), "Connection error: socket refused");
    let e = WhatsAppError::AuthError("no session".to_string());
    assert_eq!(e.message(), "Authentication error: no session");
}

#[test]
fn disconnect_on_a_full_queue_is_refused() {
    let mut handler = WebSocketHandler::with_capacity("wss://example.invalid/ws", 2);
    handler.connect(true).unwrap();
    handler.send(WebSocketMessage::Ping).unwrap();
    handler.send(WebSocketMessage::Ping).unwrap();
    // No room for the Close frame: the handler stays as it was.
    match handler.disconnect() {
        Err(WhatsAppError::ConnectionError(_)) => {},
        other => panic!("expected a connection error, got {:?}", other),
    }
    assert!(handler.is_connected());
}

#[test]
fn reader_ping_on_full_queue_terminates() {
    let mut client = fresh_client();
    client.add_event_handler(RecorderSink::new(true));
    client.connect(true).unwrap();
    // Use a tiny transport to exercise the bound.
    let mut handler = WebSocketHandler::with_capacity("wss://example.invalid/ws", 1);
    handler.connect(true).unwrap();
    handler.send(WebSocketMessage::Ping).unwrap();
    match handler.reader_step(ReaderInput::Frame(WebSocketMessage::Ping)) {
        ReaderOutcome::Terminated => {},
        other => panic!("expected termination, got {:?}", other),
    }
    assert!(!handler.is_connected());
}

#[test]
fn read_error_terminates_and_reports_once() {
    let mut client = fresh_client();
    client.add_event_handler(RecorderSink::new(true));
    client.connect(true).unwrap();
    let outcome = client.handle_inbound(ReaderInput::ReadError);
    assert!(matches!(outcome, ReaderOutcome::Terminated));
    let events = &client.event_handlers.sinks[0].events;
    assert_eq!(events.len(), 2);
    assert!(matches!(events[1], Event::Disconnected));
}
