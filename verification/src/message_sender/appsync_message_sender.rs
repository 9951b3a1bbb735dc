use std::sync::Arc;
use vstd::prelude::*;

use super::{MessageSendError, MessageSender, PublishRequest, PublishRequestView};
use crate::authenticator::Authenticator;
use crate::json::{encode_string, json_string_text};
use crate::message::{message_json, Message, MessageView};

verus! {

/// The body of the request that publishes `message`: the channel, and the message as the
/// one event, its JSON text carried as a JSON string.
pub open spec fn publish_body(message: MessageView) -> Seq<char> {
    "{\"channel\":"@ + json_string_text(message.channel) + ",\"events\":["@ + json_string_text(
        message_json(message),
    ) + "]}"@
}

/// The headers of a request to publish: the content type, then the headers that authorise.
pub open spec fn publish_headers(authorization: Seq<(Seq<char>, Seq<char>)>) -> Seq<
    (Seq<char>, Seq<char>),
> {
    seq![("content_type"@, "application/json"@)] + authorization
}

/// Whether an HTTP status says that the request succeeded.
pub open spec fn is_success(status: u16) -> bool {
    200 <= status < 300
}

/// Publishes messages to the event service over HTTP.
pub struct AppSyncMessageSender<A: Authenticator> {
    uri: String,
    auth: Arc<A>,
}

impl<A: Authenticator> AppSyncMessageSender<A> {
    /// The address that messages are published to.
    pub closed spec fn uri(&self) -> Seq<char> {
        self.uri@
    }

    /// The headers that authorise publishing.
    pub closed spec fn authorization(&self) -> Seq<(Seq<char>, Seq<char>)> {
        self.auth.publish_headers()
    }

    /// A sender that publishes to `uri`.
    pub fn new(uri: String, auth: Arc<A>) -> (sender: Self)
        ensures
            sender.uri() == uri@,
            sender.authorization() == auth.publish_headers(),
    {
        Self { uri, auth }
    }

    /// The body of the request that publishes `message`.
    pub fn message_to_body(message: &Message) -> (body: String)
        ensures
            body@ == publish_body(message@),
    {
        let event = message.to_json();
        let mut body = "{\"channel\":".to_owned();
        body.append(encode_string(message.channel.as_str()).as_str());
        body.append(",\"events\":[");
        body.append(encode_string(event.as_str()).as_str());
        body.append("]}");
        body
    }

    /// The request that publishes `message`.
    pub fn build_message(&self, message: &Message) -> (request: PublishRequest)
        ensures
            request@ == (PublishRequestView {
                method: "POST"@,
                uri: self.uri(),
                headers: publish_headers(self.authorization()),
                body: publish_body(message@),
            }),
    {
        let body = Self::message_to_body(message);
        let mut headers: Vec<(String, String)> = Vec::new();
        headers.push(("content_type".to_owned(), "application/json".to_owned()));
        let authorization = self.auth.publish_auth_headers();
        let mut i: usize = 0;
        let n: usize = authorization.len();
        while i < n
            invariant
                i <= n,
                n == authorization@.len(),
                headers.deep_view() == seq![("content_type"@, "application/json"@)]
                    + authorization@.take(i as int),
            decreases n - i,
        {
            let ghost before = headers.deep_view();
            let entry = authorization.entry(i);
            headers.push(entry);
            assert(headers.deep_view() =~= before.push(authorization@[i as int]));
            i = i + 1;
        }
        assert(authorization@.take(n as int) =~= authorization@);
        PublishRequest { method: "POST".to_owned(), uri: self.uri.clone(), headers, body }
    }

    /// What the answer of the service means: success where the status says so; otherwise
    /// the message was refused, and the error carries the body of the answer. Where that
    /// body could not be read, the error says why instead.
    pub fn check_response(status: u16, body: Result<String, String>) -> (outcome: Result<
        (),
        MessageSendError,
    >)
        ensures
            is_success(status) ==> outcome is Ok,
            !is_success(status) ==> outcome is Err && match body {
                Ok(text) => outcome->Err_0 is SendFailed && outcome->Err_0.detail() == text@,
                Err(reason) => outcome->Err_0 is HTTPError && outcome->Err_0.detail() == reason@,
            },
    {
        if 200 <= status && status < 300 {
            return Ok(());
        }
        match body {
            Ok(text) => Err(MessageSendError::SendFailed(text)),
            Err(reason) => Err(MessageSendError::HTTPError(reason)),
        }
    }
}

impl<A: Authenticator> MessageSender for AppSyncMessageSender<A> {
    open spec fn transmits(&self, message: MessageView) -> Option<PublishRequestView> {
        Some(
            PublishRequestView {
                method: "POST"@,
                uri: self.uri(),
                headers: publish_headers(self.authorization()),
                body: publish_body(message),
            },
        )
    }

    fn send_text_message(&self, message: Message) -> (request: Option<PublishRequest>) {
        Some(self.build_message(&message))
    }
}

} // verus!
