use vstd::prelude::*;

use crate::json::{encode_string, find_text, json_object_members, json_string_text, member_text, parse_object, Members};

verus! {

/// What a [`Message`] holds, as sequences of characters.
pub struct MessageView {
    pub sender: Seq<char>,
    pub channel: Seq<char>,
    pub contents: Seq<char>,
}

/// One event of a channel: who sent it, on which channel, and what it says.
#[derive(Debug, Clone, PartialEq, Eq)]
pub struct Message {
    pub sender: String,
    pub channel: String,
    pub contents: String,
}

impl View for Message {
    type V = MessageView;

    open spec fn view(&self) -> MessageView {
        MessageView { sender: self.sender@, channel: self.channel@, contents: self.contents@ }
    }
}

/// The JSON text of a message: an object with the members `sender`, `channel` and
/// `contents`, in that order, each a JSON string.
pub open spec fn message_json(message: MessageView) -> Seq<char> {
    "{\"sender\":"@ + json_string_text(message.sender) + ",\"channel\":"@ + json_string_text(
        message.channel,
    ) + ",\"contents\":"@ + json_string_text(message.contents) + "}"@
}

/// The message that the members of a JSON object stand for: `sender`, `channel` and
/// `contents` must each be there and hold a string; other members do not count.
pub open spec fn message_of_members(members: Seq<(Seq<char>, Option<Seq<char>>)>) -> Option<
    MessageView,
> {
    match (
        member_text(members, "sender"@),
        member_text(members, "channel"@),
        member_text(members, "contents"@),
    ) {
        (Some(sender), Some(channel), Some(contents)) => Some(
            MessageView { sender, channel, contents },
        ),
        _ => None,
    }
}

/// The message that a JSON text stands for, if it stands for one.
pub open spec fn message_of_json(text: Seq<char>) -> Option<MessageView> {
    match json_object_members(text) {
        Some(members) => message_of_members(members),
        None => None,
    }
}

impl Message {
    /// A message with the given sender, channel and contents.
    pub fn new(sender: &str, channel: &str, contents: &str) -> (message: Message)
        ensures
            message@.sender == sender@,
            message@.channel == channel@,
            message@.contents == contents@,
    {
        Message {
            sender: sender.to_owned(),
            channel: channel.to_owned(),
            contents: contents.to_owned(),
        }
    }

    /// Writes the message as JSON.
    pub fn to_json(&self) -> (text: String)
        ensures
            text@ == message_json(self@),
    {
        let mut text = "{\"sender\":".to_owned();
        text.append(encode_string(self.sender.as_str()).as_str());
        text.append(",\"channel\":");
        text.append(encode_string(self.channel.as_str()).as_str());
        text.append(",\"contents\":");
        text.append(encode_string(self.contents.as_str()).as_str());
        text.append("}");
        text
    }

    /// Reads a message from the members of a JSON object.
    pub fn from_members(members: &Members) -> (message: Option<Message>)
        ensures
            match message {
                Some(m) => message_of_members(members.deep_view()) == Some(m@),
                None => message_of_members(members.deep_view()) is None,
            },
    {
        let sender = find_text(members, "sender");
        let channel = find_text(members, "channel");
        let contents = find_text(members, "contents");
        match (sender, channel, contents) {
            (Some(sender), Some(channel), Some(contents)) => Some(
                Message { sender, channel, contents },
            ),
            _ => None,
        }
    }

    /// Reads a message from JSON text; `None` where the text does not hold one.
    pub fn from_json(text: &str) -> (message: Option<Message>)
        ensures
            match message {
                Some(m) => message_of_json(text@) == Some(m@),
                None => message_of_json(text@) is None,
            },
    {
        match parse_object(text) {
            Some(members) => Message::from_members(&members),
            None => None,
        }
    }
}

} // verus!
