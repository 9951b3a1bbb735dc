use appsync_messenger::message::Message;

#[test]
fn message_is_written_as_json_object() {
    let message = Message::new("a", "b", "c");
    assert_eq!(message.to_json(), "{\"sender\":\"a\",\"channel\":\"b\",\"contents\":\"c\"}");
}

#[test]
fn json_text_escapes_what_json_asks_for() {
    let message = Message::new("a\"b", "back\\slash", "line\nbreak\ttab");
    assert_eq!(
        message.to_json(),
        "{\"sender\":\"a\\\"b\",\"channel\":\"back\\\\slash\",\"contents\":\"line\\nbreak\\ttab\"}"
    );
}

#[test]
fn message_is_read_from_json() {
    let text = "{\"sender\":\"a\",\"channel\":\"b\",\"contents\":\"c\"}";
    assert_eq!(Message::from_json(text), Some(Message::new("a", "b", "c")));
}

#[test]
fn members_may_come_in_any_order_and_with_blanks() {
    let text = " { \"contents\" : \"c\", \"sender\" : \"a\" , \"channel\":\"b\" } ";
    assert_eq!(Message::from_json(text), Some(Message::new("a", "b", "c")));
}

#[test]
fn other_members_do_not_count() {
    let text = "{\"sender\":\"a\",\"channel\":\"b\",\"contents\":\"c\",\"extra\":[1,2,{\"x\":null}]}";
    assert_eq!(Message::from_json(text), Some(Message::new("a", "b", "c")));
}

#[test]
fn message_round_trips_through_json() {
    let message = Message::new("söme \"one\"", "chan/nel", "hello,\n wörld \u{1F600}");
    assert_eq!(Message::from_json(&message.to_json()), Some(message));
}

#[test]
fn a_missing_member_gives_no_message() {
    assert_eq!(Message::from_json("{\"sender\":\"a\",\"channel\":\"b\"}"), None);
    assert_eq!(Message::from_json("{\"sender\":\"a\",\"contents\":\"c\"}"), None);
    assert_eq!(Message::from_json("{\"channel\":\"b\",\"contents\":\"c\"}"), None);
    assert_eq!(Message::from_json("{}"), None);
}

#[test]
fn a_member_that_is_no_string_gives_no_message() {
    assert_eq!(Message::from_json("{\"sender\":1,\"channel\":\"b\",\"contents\":\"c\"}"), None);
    assert_eq!(Message::from_json("{\"sender\":\"a\",\"channel\":null,\"contents\":\"c\"}"), None);
    assert_eq!(
        Message::from_json("{\"sender\":\"a\",\"channel\":\"b\",\"contents\":[\"c\"]}"),
        None
    );
}

#[test]
fn text_that_is_no_json_object_gives_no_message() {
    assert_eq!(Message::from_json(""), None);
    assert_eq!(Message::from_json("not json"), None);
    assert_eq!(Message::from_json("\"a string\""), None);
    assert_eq!(Message::from_json("[\"a\",\"b\",\"c\"]"), None);
    assert_eq!(Message::from_json("{\"sender\":\"a\",\"channel\":\"b\",\"contents\":\"c\""), None);
}

#[test]
fn from_members_reads_the_three_texts() {
    let members = vec![
        ("channel".to_string(), Some("b".to_string())),
        ("contents".to_string(), Some("c".to_string())),
        ("sender".to_string(), Some("a".to_string())),
        ("other".to_string(), None),
    ];
    assert_eq!(Message::from_members(&members), Some(Message::new("a", "b", "c")));
    let without_text = vec![
        ("channel".to_string(), Some("b".to_string())),
        ("contents".to_string(), None),
        ("sender".to_string(), Some("a".to_string())),
    ];
    assert_eq!(Message::from_members(&without_text), None);
    assert_eq!(Message::from_members(&Vec::new()), None);
}
