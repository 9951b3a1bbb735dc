use std::sync::Arc;

use appsync_messenger::authenticator::appsync_api_authenticator::AppSyncAPIAuthenticator;
use appsync_messenger::message::Message;
use appsync_messenger::message_sender::appsync_message_sender::AppSyncMessageSender;
use appsync_messenger::message_sender::dummy::DummyMessageSender;
use appsync_messenger::message_sender::{MessageSendError, MessageSender, PublishRequest};

fn sender() -> AppSyncMessageSender<AppSyncAPIAuthenticator> {
    AppSyncMessageSender::new(
        "https://example.com/event".to_string(),
        Arc::new(AppSyncAPIAuthenticator::new("example.com", "secret")),
    )
}

const BODY: &str = "{\"channel\":\"news\",\"events\":[\"{\\\"sender\\\":\\\"a\\\",\\\"channel\\\":\\\"news\\\",\\\"contents\\\":\\\"hi\\\"}\"]}";

#[test]
fn body_names_the_channel_and_carries_the_message_as_one_event() {
    let message = Message::new("a", "news", "hi");
    assert_eq!(AppSyncMessageSender::<AppSyncAPIAuthenticator>::message_to_body(&message), BODY);
}

#[test]
fn request_is_a_post_with_content_type_and_authorization() {
    let expected = PublishRequest {
        method: "POST".to_string(),
        uri: "https://example.com/event".to_string(),
        headers: vec![
            ("content_type".to_string(), "application/json".to_string()),
            ("x-api-key".to_string(), "secret".to_string()),
        ],
        body: BODY.to_string(),
    };
    assert_eq!(sender().build_message(&Message::new("a", "news", "hi")), expected);
    assert_eq!(sender().send_text_message(Message::new("a", "news", "hi")), Some(expected));
}

#[test]
fn status_of_success_is_ok() {
    for status in [200u16, 201, 204, 299] {
        let outcome =
            AppSyncMessageSender::<AppSyncAPIAuthenticator>::check_response(status, Ok("x".to_string()));
        assert_eq!(outcome, Ok(()));
        let unread = AppSyncMessageSender::<AppSyncAPIAuthenticator>::check_response(
            status,
            Err("unread".to_string()),
        );
        assert_eq!(unread, Ok(()));
    }
}

#[test]
fn other_status_is_a_rejection_with_the_body() {
    for status in [100u16, 199, 300, 400, 401, 500, 65535] {
        let outcome = AppSyncMessageSender::<AppSyncAPIAuthenticator>::check_response(
            status,
            Ok("denied".to_string()),
        );
        assert_eq!(outcome, Err(MessageSendError::SendFailed("denied".to_string())));
    }
}

#[test]
fn unreadable_body_of_a_rejection_is_a_transport_failure() {
    let outcome = AppSyncMessageSender::<AppSyncAPIAuthenticator>::check_response(
        500,
        Err("connection reset".to_string()),
    );
    assert_eq!(outcome, Err(MessageSendError::HTTPError("connection reset".to_string())));
}

#[test]
fn send_errors_are_told_in_a_line() {
    assert_eq!(
        MessageSendError::HTTPError("timed out".to_string()).message(),
        "HTTP Error: timed out"
    );
    assert_eq!(
        MessageSendError::SendFailed("denied".to_string()).message(),
        "Message Send Failed: denied"
    );
}

#[test]
fn dummy_sender_transmits_nothing() {
    assert_eq!(DummyMessageSender::new().send_text_message(Message::new("a", "b", "c")), None);
}
