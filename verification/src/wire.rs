use vstd::prelude::*;

use crate::authenticator::Headers;
use crate::json::{
    encode_object, encode_string, find_text, json_object_members, json_object_text,
    json_string_text, member_text, parse_object, Members,
};
use crate::message::{message_json, message_of_json, Message, MessageView};
use crate::text::same_text;

verus! {

/// The text that the `base64` crate writes for the UTF-8 bytes of `text` with the URL-safe
/// alphabet and no padding.
pub uninterp spec fn base64_url_text(text: Seq<char>) -> Seq<char>;

/// Calls `Engine::encode` of the `base64` crate on `general_purpose::URL_SAFE_NO_PAD` with
/// the bytes of `text`. The contract names the text that comes back; it depends on the
/// characters of `text` alone. The call fails only where the encoded length does not fit
/// the address space.
#[verifier::external_body]
pub(crate) fn encode_base64_url(text: &str) -> (encoded: String)
    ensures
        encoded@ == base64_url_text(text@),
{
    base64::Engine::encode(&base64::engine::general_purpose::URL_SAFE_NO_PAD, text)
}

/// The sub-protocol entry that carries the headers which authorise a connection.
pub open spec fn authorization_protocol(headers: Seq<(Seq<char>, Seq<char>)>) -> Seq<char> {
    "header-"@ + base64_url_text(json_object_text(headers))
}

/// The sub-protocols that the handshake asks for: the protocol of the event service, then
/// the entry that carries the authorisation.
pub open spec fn subprotocols(headers: Seq<(Seq<char>, Seq<char>)>) -> Seq<char> {
    "aws-appsync-event-ws,"@ + authorization_protocol(headers)
}

/// The control frame that subscribes to `channel` under `id`.
pub open spec fn subscribe_frame(
    id: Seq<char>,
    channel: Seq<char>,
    authorization: Seq<(Seq<char>, Seq<char>)>,
) -> Seq<char> {
    "{\"type\":\"subscribe\",\"id\":"@ + json_string_text(id) + ",\"channel\":"@
        + json_string_text(channel) + ",\"authorization\":"@ + json_object_text(authorization)
        + "}"@
}

/// The control frame that ends the subscription made under `id`.
pub open spec fn unsubscribe_frame(id: Seq<char>) -> Seq<char> {
    "{\"type\":\"unsubscribe\",\"client_id\":"@ + json_string_text(id) + "}"@
}

/// The data frame that delivers `message`: its JSON text travels as a JSON string.
pub open spec fn data_frame(message: MessageView) -> Seq<char> {
    "{\"type\":\"data\",\"event\":"@ + json_string_text(message_json(message)) + "}"@
}

/// The event that the members of a frame carry: the string under `event`, where the
/// string under `type` is `data`.
pub open spec fn data_event(members: Seq<(Seq<char>, Option<Seq<char>>)>) -> Option<Seq<char>> {
    if member_text(members, "type"@) == Some("data"@) {
        member_text(members, "event"@)
    } else {
        None
    }
}

/// The message that an inbound frame delivers: the frame must be a JSON object, be a data
/// frame, and carry the JSON text of a message. Every other frame delivers nothing.
pub open spec fn delivered_message(frame: Seq<char>) -> Option<MessageView> {
    match json_object_members(frame) {
        Some(members) => match data_event(members) {
            Some(event) => message_of_json(event),
            None => None,
        },
        None => None,
    }
}

/// Builds the sub-protocol entry that carries `headers`.
pub fn build_authorization_protocol(headers: &Headers) -> (entry: String)
    ensures
        entry@ == authorization_protocol(headers@),
{
    let json = encode_object(headers.as_entries());
    let mut entry = "header-".to_owned();
    entry.append(encode_base64_url(json.as_str()).as_str());
    entry
}

/// Builds the sub-protocols that the handshake asks for.
pub fn build_subprotocols(headers: &Headers) -> (value: String)
    ensures
        value@ == subprotocols(headers@),
{
    let mut value = "aws-appsync-event-ws,".to_owned();
    value.append(build_authorization_protocol(headers).as_str());
    value
}

/// Builds the frame that subscribes to `channel` under `id`.
pub fn build_subscribe_frame(id: &str, channel: &str, authorization: &Headers) -> (frame: String)
    ensures
        frame@ == subscribe_frame(id@, channel@, authorization@),
{
    let mut frame = "{\"type\":\"subscribe\",\"id\":".to_owned();
    frame.append(encode_string(id).as_str());
    frame.append(",\"channel\":");
    frame.append(encode_string(channel).as_str());
    frame.append(",\"authorization\":");
    frame.append(encode_object(authorization.as_entries()).as_str());
    frame.append("}");
    frame
}

/// Builds the frame that ends the subscription made under `id`.
pub fn build_unsubscribe_frame(id: &str) -> (frame: String)
    ensures
        frame@ == unsubscribe_frame(id@),
{
    let mut frame = "{\"type\":\"unsubscribe\",\"client_id\":".to_owned();
    frame.append(encode_string(id).as_str());
    frame.append("}");
    frame
}

/// Builds the data frame that delivers `message`.
pub fn build_data_frame(message: &Message) -> (frame: String)
    ensures
        frame@ == data_frame(message@),
{
    let mut frame = "{\"type\":\"data\",\"event\":".to_owned();
    frame.append(encode_string(message.to_json().as_str()).as_str());
    frame.append("}");
    frame
}

/// Picks the event out of the members of a frame.
pub fn event_of_members(members: &Members) -> (event: Option<String>)
    ensures
        event.deep_view() == data_event(members.deep_view()),
{
    match find_text(members, "type") {
        Some(kind) => {
            if same_text(kind.as_str(), "data") {
                find_text(members, "event")
            } else {
                None
            }
        },
        None => None,
    }
}

/// Decodes an inbound frame; `None` for every frame that delivers no message.
pub fn decode_frame(frame: &str) -> (message: Option<Message>)
    ensures
        match message {
            Some(m) => delivered_message(frame@) == Some(m@),
            None => delivered_message(frame@) is None,
        },
{
    match parse_object(frame) {
        Some(members) => match event_of_members(&members) {
            Some(event) => Message::from_json(event.as_str()),
            None => None,
        },
        None => None,
    }
}

} // verus!
