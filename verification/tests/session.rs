use std::sync::Arc;

use appsync_messenger::authenticator::appsync_api_authenticator::AppSyncAPIAuthenticator;
use appsync_messenger::message::Message;
use appsync_messenger::message_receiver::appsync_message_receiver::{
    AppSyncOpenConnection, ConnectionState, Incoming, LoopControl,
};
use appsync_messenger::message_receiver::{MessageReceiverError, OpenConnection};
use appsync_messenger::task_queue::{Task, TaskQueue};
use appsync_messenger::wire::build_data_frame;

fn connection() -> AppSyncOpenConnection<AppSyncAPIAuthenticator> {
    AppSyncOpenConnection::new(Arc::new(AppSyncAPIAuthenticator::new("example.com", "secret")))
}

fn id_of(frame: &str) -> String {
    let start = "{\"type\":\"subscribe\",\"id\":\"";
    assert!(frame.starts_with(start));
    frame[start.len()..start.len() + 32].to_string()
}

#[test]
fn new_connection_is_active_and_without_channels() {
    let connection = connection();
    assert_eq!(connection.state(), ConnectionState::Active);
    assert_eq!(connection.channels(), Vec::<String>::new());
    assert!(!connection.is_subscribed("news"));
}

#[test]
fn subscribe_with_id_hands_out_the_frame_and_records_the_channel() {
    let mut connection = connection();
    let frame = connection.add_channel_with_id("news", "abc".to_string());
    assert_eq!(
        frame,
        Some(
            "{\"type\":\"subscribe\",\"id\":\"abc\",\"channel\":\"news\",\"authorization\":{\"x-api-key\":\"secret\"}}"
                .to_string()
        )
    );
    assert_eq!(connection.channels(), vec!["news".to_string()]);
    assert!(connection.is_subscribed("news"));
}

#[test]
fn subscribing_twice_sends_one_frame_and_keeps_one_entry() {
    let mut connection = connection();
    let first = connection.add_channel("news");
    let second = connection.add_channel("news");
    assert!(first.is_some());
    assert_eq!(second, None);
    assert_eq!(connection.channels(), vec!["news".to_string()]);
}

#[test]
fn subscribing_twice_keeps_the_first_id() {
    let mut connection = connection();
    assert!(connection.add_channel_with_id("news", "first".to_string()).is_some());
    assert_eq!(connection.add_channel_with_id("news", "second".to_string()), None);
    assert_eq!(
        connection.remove_channel("news"),
        Some("{\"type\":\"unsubscribe\",\"client_id\":\"first\"}".to_string())
    );
}

#[test]
fn fresh_ids_are_32_hex_digits_and_differ() {
    let mut connection = connection();
    let news = id_of(&connection.add_channel("news").unwrap());
    let sports = id_of(&connection.add_channel("sports").unwrap());
    for id in [&news, &sports] {
        assert_eq!(id.len(), 32);
        assert!(id.chars().all(|c| c.is_ascii_digit() || ('a'..='f').contains(&c)));
    }
    assert_ne!(news, sports);
}

#[test]
fn fresh_subscribe_frame_names_the_channel_and_the_authorization() {
    let mut connection = connection();
    let frame = connection.add_channel("news").unwrap();
    let id = id_of(&frame);
    assert_eq!(
        frame,
        format!(
            "{{\"type\":\"subscribe\",\"id\":\"{}\",\"channel\":\"news\",\"authorization\":{{\"x-api-key\":\"secret\"}}}}",
            id
        )
    );
}

#[test]
fn unsubscribe_of_unknown_channel_sends_nothing() {
    let mut connection = connection();
    assert_eq!(connection.remove_channel("news"), None);
    assert_eq!(connection.channels(), Vec::<String>::new());
    connection.add_channel_with_id("sports", "s".to_string());
    assert_eq!(connection.remove_channel("news"), None);
    assert_eq!(connection.channels(), vec!["sports".to_string()]);
    assert_eq!(connection.state(), ConnectionState::Active);
}

#[test]
fn unsubscribe_carries_the_stored_id_and_removes_the_entry() {
    let mut connection = connection();
    connection.add_channel_with_id("news", "n1".to_string());
    connection.add_channel_with_id("sports", "s1".to_string());
    assert_eq!(
        connection.remove_channel("news"),
        Some("{\"type\":\"unsubscribe\",\"client_id\":\"n1\"}".to_string())
    );
    assert_eq!(connection.channels(), vec!["sports".to_string()]);
    assert_eq!(connection.remove_channel("news"), None);
}

#[test]
fn a_channel_can_be_subscribed_again_after_unsubscribe() {
    let mut connection = connection();
    connection.add_channel_with_id("news", "n1".to_string());
    connection.remove_channel("news");
    assert!(connection.add_channel_with_id("news", "n2".to_string()).is_some());
    assert_eq!(
        connection.remove_channel("news"),
        Some("{\"type\":\"unsubscribe\",\"client_id\":\"n2\"}".to_string())
    );
}

#[test]
fn failed_subscribe_leaves_the_subscriptions_as_before() {
    let mut connection = connection();
    connection.add_channel_with_id("sports", "s1".to_string());
    assert!(connection.add_channel_with_id("news", "n1".to_string()).is_some());
    let error = connection.subscribe_failed("news", "socket closed");
    assert_eq!(error, MessageReceiverError::ConnectionError("socket closed".to_string()));
    assert_eq!(error.message(), "Connection Error: socket closed");
    assert_eq!(connection.channels(), vec!["sports".to_string()]);
    assert!(connection.add_channel("news").is_some());
}

#[test]
fn data_frame_becomes_an_inbound_task() {
    let connection = connection();
    let mut queue = TaskQueue::new();
    let message = Message::new("a", "news", "hello");
    connection.handle_incoming_message(&build_data_frame(&message), &mut queue);
    assert_eq!(queue.len(), 1);
    assert_eq!(queue.pop(), Some(Task::receive_message(message)));
}

#[test]
fn frames_that_are_no_data_are_dropped() {
    let connection = connection();
    let mut queue = TaskQueue::new();
    connection.handle_incoming_message("{\"type\":\"ka\"}", &mut queue);
    connection.handle_incoming_message("garbage", &mut queue);
    connection.handle_incoming_message("{\"type\":\"data\",\"event\":\"{}\"}", &mut queue);
    assert!(queue.is_empty());
}

#[test]
fn receive_loop_goes_on_after_frames_and_stops_at_the_end() {
    let connection = connection();
    let mut queue = TaskQueue::new();
    let message = Message::new("a", "news", "hello");
    let text = Incoming::Text(build_data_frame(&message));
    assert_eq!(connection.receive_step(&text, &mut queue), LoopControl::Continue);
    assert_eq!(
        connection.receive_step(&Incoming::Text("garbage".to_string()), &mut queue),
        LoopControl::Continue
    );
    assert_eq!(connection.receive_step(&Incoming::Other, &mut queue), LoopControl::Continue);
    assert_eq!(connection.receive_step(&Incoming::Failed, &mut queue), LoopControl::Stop);
    assert_eq!(connection.receive_step(&Incoming::Ended, &mut queue), LoopControl::Stop);
    assert_eq!(queue.len(), 1);
    assert_eq!(queue.pop(), Some(Task::receive_message(message)));
}

#[test]
fn teardown_unsubscribes_every_channel_then_closes() {
    let mut connection = connection();
    connection.add_channel_with_id("news", "n1".to_string());
    connection.add_channel_with_id("sports", "s1".to_string());
    let frames = connection.close();
    assert_eq!(
        frames,
        vec![
            "{\"type\":\"unsubscribe\",\"client_id\":\"n1\"}".to_string(),
            "{\"type\":\"unsubscribe\",\"client_id\":\"s1\"}".to_string(),
        ]
    );
    assert_eq!(connection.state(), ConnectionState::Closing);
    assert_eq!(connection.channels(), Vec::<String>::new());
    connection.closed();
    assert_eq!(connection.state(), ConnectionState::Closed);
}

#[test]
fn teardown_with_fresh_ids_sends_one_frame_per_channel() {
    let mut connection = connection();
    let news = id_of(&connection.add_channel("news").unwrap());
    let sports = id_of(&connection.add_channel("sports").unwrap());
    let mut frames = connection.close();
    frames.sort();
    let mut expected = vec![
        format!("{{\"type\":\"unsubscribe\",\"client_id\":\"{}\"}}", news),
        format!("{{\"type\":\"unsubscribe\",\"client_id\":\"{}\"}}", sports),
    ];
    expected.sort();
    assert_eq!(frames, expected);
}

#[test]
fn teardown_happens_once() {
    let mut connection = connection();
    connection.add_channel_with_id("news", "n1".to_string());
    assert_eq!(connection.close().len(), 1);
    assert_eq!(connection.close(), Vec::<String>::new());
    assert_eq!(connection.state(), ConnectionState::Closing);
    connection.closed();
    assert_eq!(connection.close(), Vec::<String>::new());
    assert_eq!(connection.state(), ConnectionState::Closed);
}

#[test]
fn closed_moves_only_a_connection_that_was_given_up() {
    let mut connection = connection();
    connection.closed();
    assert_eq!(connection.state(), ConnectionState::Active);
}

#[test]
fn a_connection_that_was_given_up_takes_no_requests_and_drops_frames() {
    let mut connection = connection();
    connection.add_channel_with_id("news", "n1".to_string());
    connection.close();
    assert_eq!(connection.add_channel("sports"), None);
    assert_eq!(connection.add_channel_with_id("sports", "s".to_string()), None);
    assert_eq!(connection.remove_channel("news"), None);
    assert_eq!(connection.channels(), Vec::<String>::new());
    let mut queue = TaskQueue::new();
    let frame = build_data_frame(&Message::new("a", "news", "late"));
    connection.handle_incoming_message(&frame, &mut queue);
    assert!(queue.is_empty());
    assert_eq!(connection.receive_step(&Incoming::Text(frame), &mut queue), LoopControl::Stop);
    assert_eq!(connection.receive_step(&Incoming::Other, &mut queue), LoopControl::Stop);
    assert!(queue.is_empty());
    connection.receive_message(Message::new("a", "news", "late"), &mut queue);
    assert!(queue.is_empty());
}

#[test]
fn an_id_that_is_in_use_is_not_stored_twice() {
    let mut connection = connection();
    assert!(connection.add_channel_with_id("news", "same".to_string()).is_some());
    assert_eq!(connection.add_channel_with_id("sports", "same".to_string()), None);
    assert_eq!(connection.channels(), vec!["news".to_string()]);
    assert!(connection.add_channel_with_id("sports", "other".to_string()).is_some());
    assert_eq!(connection.channels(), vec!["news".to_string(), "sports".to_string()]);
    connection.remove_channel("news");
    assert!(connection.add_channel_with_id("weather", "same".to_string()).is_some());
}

#[test]
fn fresh_ids_differ_from_every_stored_id() {
    let mut connection = connection();
    let mut ids = Vec::new();
    for i in 0..200 {
        let frame = connection.add_channel(&format!("channel-{}", i)).unwrap();
        ids.push(id_of(&frame));
    }
    let mut unique = ids.clone();
    unique.sort();
    unique.dedup();
    assert_eq!(unique.len(), ids.len());
    assert_eq!(connection.channels().len(), 200);
}
