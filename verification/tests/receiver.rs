use std::sync::Arc;

use appsync_messenger::authenticator::appsync_api_authenticator::AppSyncAPIAuthenticator;
use appsync_messenger::message::Message;
use appsync_messenger::message_receiver::appsync_message_receiver::{
    AppSyncMessageReceiver, ConnectionState,
};
use appsync_messenger::message_receiver::dummy::{
    DummyMessageReceiver, DummyOpenConnection, TICK_SECONDS,
};
use appsync_messenger::message_receiver::{MessageReceiverError, OpenConnection};
use appsync_messenger::task_queue::{Task, TaskQueue};

fn receiver(uri: &str) -> AppSyncMessageReceiver<AppSyncAPIAuthenticator> {
    AppSyncMessageReceiver::new(
        uri,
        Arc::new(AppSyncAPIAuthenticator::new("example.com", "secret")),
    )
}

fn pair(name: &str, value: &str) -> (String, String) {
    (name.to_string(), value.to_string())
}

const PROTOCOLS: &str =
    "aws-appsync-event-ws,header-eyJob3N0IjoiZXhhbXBsZS5jb20iLCJ4LWFwaS1rZXkiOiJzZWNyZXQifQ";

#[test]
fn auth_header_carries_the_subscribe_headers() {
    assert_eq!(
        receiver("wss://example.com/event/realtime").auth_header(),
        "header-eyJob3N0IjoiZXhhbXBsZS5jb20iLCJ4LWFwaS1rZXkiOiJzZWNyZXQifQ"
    );
}

#[test]
fn handshake_request_has_the_upgrade_headers_in_order() {
    let request = receiver("wss://realtime.example.com:8443/event/realtime")
        .handshake_with_key("a2V5a2V5a2V5a2V5a2V5a2U=".to_string())
        .unwrap();
    assert_eq!(request.uri, "wss://realtime.example.com:8443/event/realtime");
    assert_eq!(
        request.headers,
        vec![
            pair("Host", "realtime.example.com"),
            pair("Connection", "Upgrade"),
            pair("Upgrade", "websocket"),
            pair("Sec-WebSocket-Version", "13"),
            pair("Sec-WebSocket-Key", "a2V5a2V5a2V5a2V5a2V5a2U="),
            pair("Sec-WebSocket-Protocol", PROTOCOLS),
        ]
    );
}

#[test]
fn handshake_with_fresh_key_differs_only_in_the_key() {
    let receiver = receiver("wss://example.com/event/realtime");
    let first = receiver.handshake().unwrap();
    let second = receiver.handshake().unwrap();
    assert_eq!(first.uri, second.uri);
    assert_eq!(first.headers.len(), 6);
    for i in [0, 1, 2, 3, 5] {
        assert_eq!(first.headers[i], second.headers[i]);
    }
    assert_eq!(first.headers[0], pair("Host", "example.com"));
    assert_eq!(first.headers[4].0, "Sec-WebSocket-Key");
    assert_eq!(first.headers[4].1.len(), 24);
    assert_ne!(first.headers[4].1, second.headers[4].1);
}

#[test]
fn malformed_address_is_a_connection_error() {
    for uri in ["", "wss://exa mple.com/", "wss://[::1/realtime", "http://user@/path"] {
        let outcome = receiver(uri).handshake_with_key("k".to_string());
        assert!(matches!(outcome, Err(MessageReceiverError::ConnectionError(_))), "{}", uri);
        assert!(receiver(uri).handshake().is_err(), "{}", uri);
    }
}

#[test]
fn malformed_address_reports_the_words_of_the_parser() {
    let outcome = receiver("wss://exa mple.com/").handshake_with_key("k".to_string());
    assert_eq!(
        outcome,
        Err(MessageReceiverError::ConnectionError("invalid uri character".to_string()))
    );
}

#[test]
fn address_without_host_is_a_connection_error() {
    for uri in ["/event/realtime", "*"] {
        let outcome = receiver(uri).handshake_with_key("k".to_string());
        assert_eq!(
            outcome,
            Err(MessageReceiverError::ConnectionError("URI missing host".to_string())),
            "{}",
            uri
        );
    }
    let error = receiver("/event/realtime").handshake().unwrap_err();
    assert_eq!(error.message(), "Connection Error: URI missing host");
}

#[test]
fn accepted_upgrade_gives_an_active_connection() {
    let mut connection = receiver("wss://example.com/event/realtime").listen(Ok(())).unwrap();
    assert_eq!(connection.state(), ConnectionState::Active);
    assert_eq!(connection.channels(), Vec::<String>::new());
    assert_eq!(
        connection.add_channel_with_id("news", "n1".to_string()),
        Some(
            "{\"type\":\"subscribe\",\"id\":\"n1\",\"channel\":\"news\",\"authorization\":{\"x-api-key\":\"secret\"}}"
                .to_string()
        )
    );
}

#[test]
fn rejected_upgrade_is_a_connection_error() {
    let outcome = receiver("wss://example.com/event/realtime")
        .listen(Err("HTTP error: 401 Unauthorized".to_string()));
    match outcome {
        Err(error) => {
            assert_eq!(
                error,
                MessageReceiverError::ConnectionError("HTTP error: 401 Unauthorized".to_string())
            );
            assert_eq!(error.message(), "Connection Error: HTTP error: 401 Unauthorized");
        }
        Ok(_) => panic!("a rejected upgrade gave a connection"),
    }
}

#[test]
fn dummy_connection_keeps_each_name_once() {
    let mut connection = DummyMessageReceiver::new().listen().unwrap();
    assert_eq!(connection.channels(), Vec::<String>::new());
    assert!(!connection.is_subscribed("news"));
    assert_eq!(connection.add_channel("news"), None);
    assert_eq!(connection.add_channel("news"), None);
    assert_eq!(connection.channels(), vec!["news".to_string()]);
    assert_eq!(connection.add_channel("sports"), None);
    assert_eq!(connection.add_channel("news"), None);
    assert_eq!(connection.channels(), vec!["news".to_string(), "sports".to_string()]);
    assert!(connection.is_subscribed("news"));
    assert_eq!(connection.remove_channel("news"), None);
    assert_eq!(connection.channels(), vec!["sports".to_string()]);
    assert!(!connection.is_subscribed("news"));
    assert_eq!(connection.remove_channel("other"), None);
    assert_eq!(connection.channels(), vec!["sports".to_string()]);
}

#[test]
fn dummy_connection_passes_messages_on() {
    let connection = DummyOpenConnection::new();
    let mut queue = TaskQueue::new();
    connection.receive_message(Message::new("a", "b", "c"), &mut queue);
    connection.tick(&mut queue);
    assert_eq!(queue.pop(), Some(Task::receive_message(Message::new("a", "b", "c"))));
    assert_eq!(
        queue.pop(),
        Some(Task::receive_message(Message::new("dummy", "dummy", "Hello, Dummy!")))
    );
    assert_eq!(queue.pop(), None);
    assert_eq!(DummyOpenConnection::greeting(), Message::new("dummy", "dummy", "Hello, Dummy!"));
    assert_eq!(TICK_SECONDS, 3);
}
