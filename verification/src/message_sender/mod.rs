use vstd::prelude::*;

use crate::message::{Message, MessageView};

pub mod appsync_message_sender;
pub mod dummy;

verus! {

/// Why a message was not published.
#[derive(Debug, Clone, PartialEq, Eq)]
pub enum MessageSendError {
    /// The transport failed: the request did not go out or no answer came back.
    HTTPError(String),
    /// The service refused the message; the text is the body of its answer.
    SendFailed(String),
}

impl MessageSendError {
    /// The text that the error carries.
    pub open spec fn detail(&self) -> Seq<char> {
        match self {
            MessageSendError::HTTPError(detail) => detail@,
            MessageSendError::SendFailed(detail) => detail@,
        }
    }

    /// The error as a line for the user.
    pub fn message(&self) -> (line: String)
        ensures
            self is HTTPError ==> line@ == "HTTP Error: "@ + self.detail(),
            self is SendFailed ==> line@ == "Message Send Failed: "@ + self.detail(),
    {
        match self {
            MessageSendError::HTTPError(detail) => {
                let mut line = "HTTP Error: ".to_owned();
                line.append(detail.as_str());
                line
            },
            MessageSendError::SendFailed(detail) => {
                let mut line = "Message Send Failed: ".to_owned();
                line.append(detail.as_str());
                line
            },
        }
    }
}

/// What a [`PublishRequest`] holds, as sequences of characters.
pub struct PublishRequestView {
    pub method: Seq<char>,
    pub uri: Seq<char>,
    pub headers: Seq<(Seq<char>, Seq<char>)>,
    pub body: Seq<char>,
}

/// A request that publishes one message.
#[derive(Debug, Clone, PartialEq, Eq)]
pub struct PublishRequest {
    pub method: String,
    pub uri: String,
    pub headers: Vec<(String, String)>,
    pub body: String,
}

impl View for PublishRequest {
    type V = PublishRequestView;

    open spec fn view(&self) -> PublishRequestView {
        PublishRequestView {
            method: self.method@,
            uri: self.uri@,
            headers: self.headers.deep_view(),
            body: self.body@,
        }
    }
}

/// The collaborator that publishes messages.
///
/// The sender decides and the transport acts: it hands out the request to make, and the
/// caller makes it.
pub trait MessageSender {
    /// The request that publishes `message`, if one is to be made.
    spec fn transmits(&self, message: MessageView) -> Option<PublishRequestView>;

    /// Hands out the request that publishes `message`, if one is to be made.
    fn send_text_message(&self, message: Message) -> (request: Option<PublishRequest>)
        ensures
            match request {
                Some(r) => self.transmits(message@) == Some(r@),
                None => self.transmits(message@) is None,
            },
    ;
}

} // verus!
