use std::sync::Arc;
use vstd::prelude::*;

use super::{MessageReceiverError, OpenConnection};
use crate::authenticator::Authenticator;
use crate::message::Message;
use crate::string_map::{
    distinct_names, distinct_texts, has_name, has_text, lemma_occurs_once,
    lemma_position_found, lemma_position_of, names_of, occurrences, position_of, text_of,
    StringMap,
};
use crate::subscription_id::{fresh_id, is_subscription_id};
use crate::task_queue::{queued, Task, TaskQueue, TaskView};
use crate::wire::{
    authorization_protocol, build_authorization_protocol, build_subprotocols,
    build_subscribe_frame, build_unsubscribe_frame, decode_frame, delivered_message,
    subprotocols, subscribe_frame, unsubscribe_frame,
};

verus! {

/// Where a connection stands in its life. It only ever moves forward.
#[derive(Debug, Clone, Copy, PartialEq, Eq, Structural)]
pub enum ConnectionState {
    /// The socket is open and frames are being received.
    Active,
    /// The connection was given up: the last frames are on their way.
    Closing,
    /// The socket is closed.
    Closed,
}

/// What a connection to the event service holds.
pub struct ConnectionView {
    pub state: ConnectionState,
    /// The subscribed channels, each with the id it was subscribed under, in the order in
    /// which they were subscribed.
    pub subscriptions: Seq<(Seq<char>, Seq<char>)>,
    /// The headers that authorise a subscription.
    pub authorization: Seq<(Seq<char>, Seq<char>)>,
}

impl ConnectionView {
    pub open spec fn active(self) -> bool {
        self.state == ConnectionState::Active
    }

    /// Whether a subscription is stored under `id`.
    pub open spec fn uses(self, id: Seq<char>) -> bool {
        has_text(self.subscriptions, id)
    }

    /// Whether a request to subscribe to `channel` under `id` leads to a subscription: the
    /// connection is active, the channel is not subscribed yet, and no subscription is
    /// stored under the id.
    pub open spec fn takes(self, channel: Seq<char>, id: Seq<char>) -> bool {
        self.active() && !has_name(self.subscriptions, channel) && !self.uses(id)
    }

    /// Whether a request to unsubscribe from `channel` ends a subscription.
    pub open spec fn holds(self, channel: Seq<char>) -> bool {
        self.active() && has_name(self.subscriptions, channel)
    }

    /// The connection after a request to subscribe to `channel` under `id`.
    pub open spec fn subscribe(self, channel: Seq<char>, id: Seq<char>) -> ConnectionView {
        if self.takes(channel, id) {
            ConnectionView { subscriptions: self.subscriptions.push((channel, id)), ..self }
        } else {
            self
        }
    }

    /// The frame that a request to subscribe to `channel` under `id` puts on the socket.
    pub open spec fn subscribe_frame(self, channel: Seq<char>, id: Seq<char>) -> Option<
        Seq<char>,
    > {
        if self.takes(channel, id) {
            Some(subscribe_frame(id, channel, self.authorization))
        } else {
            None
        }
    }

    /// The connection after a request to unsubscribe from `channel`.
    pub open spec fn unsubscribe(self, channel: Seq<char>) -> ConnectionView {
        if self.holds(channel) {
            ConnectionView {
                subscriptions: self.subscriptions.remove(position_of(self.subscriptions, channel)),
                ..self
            }
        } else {
            self
        }
    }

    /// The frame that a request to unsubscribe from `channel` puts on the socket.
    pub open spec fn unsubscribe_frame(self, channel: Seq<char>) -> Option<Seq<char>> {
        if self.holds(channel) {
            Some(unsubscribe_frame(text_of(self.subscriptions, channel)))
        } else {
            None
        }
    }

    /// The connection after it was given up.
    pub open spec fn close(self) -> ConnectionView {
        if self.active() {
            ConnectionView {
                state: ConnectionState::Closing,
                subscriptions: Seq::empty(),
                ..self
            }
        } else {
            self
        }
    }

    /// The frames that giving the connection up puts on the socket: one for each channel
    /// that is still subscribed.
    pub open spec fn close_frames(self) -> Seq<Seq<char>> {
        if self.active() {
            Seq::new(self.subscriptions.len(), |i: int| unsubscribe_frame(self.subscriptions[i].1))
        } else {
            Seq::empty()
        }
    }

    /// The number of subscriptions to `channel`.
    pub open spec fn count(self, channel: Seq<char>) -> nat {
        occurrences(self.subscriptions, channel)
    }
}

/// What came off the socket.
#[derive(Debug, Clone, PartialEq, Eq)]
pub enum Incoming {
    /// A text frame.
    Text(String),
    /// A frame of another kind.
    Other,
    /// The socket failed.
    Failed,
    /// The stream of frames ended.
    Ended,
}

/// Whether the loop that reads the socket goes on.
#[derive(Debug, Clone, Copy, PartialEq, Eq, Structural)]
pub enum LoopControl {
    Continue,
    Stop,
}

/// One live connection to the event service: which channels are subscribed, under which
/// ids, and where the connection stands in its life.
///
/// The connection decides and the transport acts: a call that asks for a frame hands the
/// frame out, and the caller puts it on the socket.
pub struct AppSyncOpenConnection<A: Authenticator> {
    authenticator: Arc<A>,
    channels_ids: StringMap,
    state: ConnectionState,
}

impl<A: Authenticator> View for AppSyncOpenConnection<A> {
    type V = ConnectionView;

    closed spec fn view(&self) -> ConnectionView {
        ConnectionView {
            state: self.state,
            subscriptions: self.channels_ids@,
            authorization: self.authenticator.publish_headers(),
        }
    }
}

impl<A: Authenticator> AppSyncOpenConnection<A> {
    /// An active connection without subscriptions.
    pub fn new(authenticator: Arc<A>) -> (connection: Self)
        ensures
            connection@.state == ConnectionState::Active,
            connection@.subscriptions == Seq::<(Seq<char>, Seq<char>)>::empty(),
            connection@.authorization == authenticator.publish_headers(),
    {
        AppSyncOpenConnection {
            authenticator,
            channels_ids: StringMap::new(),
            state: ConnectionState::Active,
        }
    }

    /// Where the connection stands in its life.
    pub fn state(&self) -> (state: ConnectionState)
        ensures
            state == self@.state,
    {
        self.state
    }

    /// Whether `channel` is subscribed.
    pub fn is_subscribed(&self, channel: &str) -> (subscribed: bool)
        ensures
            subscribed == has_name(self@.subscriptions, channel@),
    {
        self.channels_ids.contains(channel)
    }

    /// Subscribes to `channel` under `id`: hands out the frame to send and records the
    /// subscription. Where the channel is subscribed already, a subscription is stored
    /// under the id, or the connection is no longer active, nothing is handed out and
    /// nothing changes.
    pub fn add_channel_with_id(&mut self, channel: &str, id: String) -> (frame: Option<String>)
        ensures
            distinct_names(final(self)@.subscriptions),
            final(self)@ == old(self)@.subscribe(channel@, id@),
            frame.deep_view() == old(self)@.subscribe_frame(channel@, id@),
            frame is Some ==> has_name(final(self)@.subscriptions, channel@),
    {
        proof {
            use_type_invariant(&self.channels_ids);
        }
        if self.state != ConnectionState::Active || self.channels_ids.contains(channel)
            || self.channels_ids.contains_text(id.as_str()) {
            return None;
        }
        let authorization = self.authenticator.publish_auth_headers();
        let frame = build_subscribe_frame(id.as_str(), channel, &authorization);
        self.channels_ids.insert(channel.to_owned(), id);
        Some(frame)
    }

    /// Takes back the subscription to `channel` after its frame could not be sent, and
    /// hands out the error to report. The subscriptions are then as they were before the
    /// request.
    pub fn subscribe_failed(&mut self, channel: &str, reason: &str) -> (error:
        MessageReceiverError)
        ensures
            distinct_names(final(self)@.subscriptions),
            final(self)@.state == old(self)@.state,
            final(self)@.authorization == old(self)@.authorization,
            has_name(old(self)@.subscriptions, channel@) ==> final(self)@.subscriptions == old(
                self,
            )@.subscriptions.remove(position_of(old(self)@.subscriptions, channel@)),
            !has_name(old(self)@.subscriptions, channel@) ==> final(self)@.subscriptions == old(
                self,
            )@.subscriptions,
            error.reason() == reason@,
    {
        let _ = self.channels_ids.remove(channel);
        MessageReceiverError::ConnectionError(reason.to_owned())
    }

    /// Decodes a frame that came off the socket and, where it delivers a message, passes
    /// the message on as the last task of `queue`. Every other frame is dropped, and so
    /// is every frame once the connection is no longer active.
    pub fn handle_incoming_message(&self, raw: &str, queue: &mut TaskQueue)
        ensures
            match delivered_message(raw@) {
                Some(message) if self@.active() => queued(
                    old(queue)@,
                    final(queue)@,
                    TaskView::InboundMessage(message),
                ),
                _ => final(queue)@ == old(queue)@,
            },
    {
        if self.state != ConnectionState::Active {
            return ;
        }
        match decode_frame(raw) {
            Some(message) => {
                self.receive_message(message, queue);
                assert(queue@.drop_last() =~= old(queue)@);
            },
            None => {},
        }
    }

    /// One turn of the loop that reads the socket: what to do with what came off it.
    ///
    /// A text frame is decoded and the loop goes on, whether or not the frame delivered a
    /// message. A frame of another kind is passed over. The loop stops where the socket
    /// failed, where the stream ended, and where the connection is no longer active.
    pub fn receive_step(&self, incoming: &Incoming, queue: &mut TaskQueue) -> (control:
        LoopControl)
        ensures
            control == if self@.active() && (incoming is Text || incoming is Other) {
                LoopControl::Continue
            } else {
                LoopControl::Stop
            },
            match incoming {
                Incoming::Text(raw) => match delivered_message(raw@) {
                    Some(message) if self@.active() => queued(
                        old(queue)@,
                        final(queue)@,
                        TaskView::InboundMessage(message),
                    ),
                    _ => final(queue)@ == old(queue)@,
                },
                _ => final(queue)@ == old(queue)@,
            },
    {
        if self.state != ConnectionState::Active {
            return LoopControl::Stop;
        }
        match incoming {
            Incoming::Text(raw) => {
                self.handle_incoming_message(raw.as_str(), queue);
                LoopControl::Continue
            },
            Incoming::Other => LoopControl::Continue,
            Incoming::Failed => LoopControl::Stop,
            Incoming::Ended => LoopControl::Stop,
        }
    }

    /// Gives the connection up: hands out one unsubscribe frame for each channel that is
    /// still subscribed, in the order of the subscriptions, forgets the subscriptions and
    /// moves to `Closing`. The caller sends the frames as far as the socket takes them and
    /// then closes the socket. A connection that was given up before hands out nothing.
    pub fn close(&mut self) -> (frames: Vec<String>)
        ensures
            distinct_names(final(self)@.subscriptions),
            final(self)@ == old(self)@.close(),
            frames.deep_view() == old(self)@.close_frames(),
    {
        let mut frames: Vec<String> = Vec::new();
        proof {
            use_type_invariant(&self.channels_ids);
        }
        if self.state != ConnectionState::Active {
            return frames;
        }
        let ghost subscriptions = self.channels_ids@;
        let mut i: usize = 0;
        let n: usize = self.channels_ids.len();
        while i < n
            invariant
                i <= n,
                n == subscriptions.len(),
                subscriptions == self.channels_ids@,
                *self == *old(self),
                self@.active(),
                frames.deep_view() == old(self)@.close_frames().take(i as int),
            decreases n - i,
        {
            let ghost before = frames.deep_view();
            let entry = self.channels_ids.entry(i);
            let frame = build_unsubscribe_frame(entry.1.as_str());
            frames.push(frame);
            assert(frames.deep_view() =~= before.push(unsubscribe_frame(subscriptions[i as int].1)));
            i = i + 1;
        }
        self.channels_ids = StringMap::new();
        self.state = ConnectionState::Closing;
        frames
    }

    /// Records that the socket is closed. Only a connection that was given up moves.
    pub fn closed(&mut self)
        ensures
            final(self)@.subscriptions == old(self)@.subscriptions,
            final(self)@.authorization == old(self)@.authorization,
            final(self)@.state == if old(self)@.state == ConnectionState::Closing {
                ConnectionState::Closed
            } else {
                old(self)@.state
            },
    {
        if self.state == ConnectionState::Closing {
            self.state = ConnectionState::Closed;
        }
    }
}

/// What `add_channel` does with the fresh id `id`: no subscription is stored under it.
pub open spec fn subscribed_under(
    before: ConnectionView,
    channel: Seq<char>,
    id: Seq<char>,
    after: ConnectionView,
    frame: Option<Seq<char>>,
) -> bool {
    &&& is_subscription_id(id)
    &&& !before.uses(id)
    &&& after == before.subscribe(channel, id)
    &&& frame == before.subscribe_frame(channel, id)
}

impl<A: Authenticator> OpenConnection for AppSyncOpenConnection<A> {
    open spec fn subscribed(&self) -> Seq<Seq<char>> {
        names_of(self@.subscriptions)
    }

    open spec fn forwards(&self) -> bool {
        self@.active()
    }

    /// The request is carried out under an id of the right form that no subscription is
    /// stored under.
    open spec fn adds(&self, channel: Seq<char>, after: &Self, frame: Option<Seq<char>>) -> bool {
        exists|id: Seq<char>| #[trigger] subscribed_under(self@, channel, id, after@, frame)
    }

    open spec fn removes(&self, channel: Seq<char>, after: &Self, frame: Option<Seq<char>>) -> bool {
        after@ == self@.unsubscribe(channel) && frame == self@.unsubscribe_frame(channel)
    }

    /// Subscribes to `channel` under a fresh id. Where the channel is subscribed already,
    /// or the connection is no longer active, no frame is handed out and nothing changes.
    fn add_channel(&mut self, channel: &str) -> (frame: Option<String>)
        ensures
            old(self)@.active() ==> has_name(final(self)@.subscriptions, channel@),
    {
        let id = fresh_id(&self.channels_ids);
        let ghost chosen = id@;
        let frame = self.add_channel_with_id(channel, id);
        assert(subscribed_under(old(self)@, channel@, chosen, self@, frame.deep_view()));
        frame
    }

    /// Unsubscribes from `channel`: hands out the frame that carries the id of the
    /// subscription and forgets the subscription. Where the channel is not subscribed, or
    /// the connection is no longer active, no frame is handed out and nothing changes.
    fn remove_channel(&mut self, channel: &str) -> (frame: Option<String>) {
        if self.state != ConnectionState::Active {
            return None;
        }
        match self.channels_ids.remove(channel) {
            Some(id) => Some(build_unsubscribe_frame(id.as_str())),
            None => None,
        }
    }

    fn channels(&self) -> (names: Vec<String>) {
        let mut names: Vec<String> = Vec::new();
        let mut i: usize = 0;
        let n: usize = self.channels_ids.len();
        while i < n
            invariant
                i <= n,
                n == self@.subscriptions.len(),
                names.deep_view() == self.subscribed().take(i as int),
            decreases n - i,
        {
            let ghost before = names.deep_view();
            let entry = self.channels_ids.entry(i);
            names.push(entry.0);
            assert(names.deep_view() =~= before.push(self@.subscriptions[i as int].0));
            i = i + 1;
        }
        names
    }

    fn receive_message(&self, message: Message, queue: &mut TaskQueue) {
        if self.state == ConnectionState::Active {
            queue.push(Task::receive_message(message));
        }
    }
}

/// What the `http` crate makes of `uri`: the host of the URI, `None` where the URI has no
/// host, or the words with which the crate refuses a text that is no URI.
pub uninterp spec fn uri_host(uri: Seq<char>) -> Result<Option<Seq<char>>, Seq<char>>;

/// Calls `Uri::from_str` of the `http` crate (through `str::parse`) and, on the URI that
/// comes back, `Uri::host`; on the `InvalidUri` that comes back instead, `to_string`. The
/// contract names what comes back; it depends on the characters of `uri` alone.
#[verifier::external_body]
fn parse_host(uri: &str) -> (host: Result<Option<String>, String>)
    ensures
        match host {
            Ok(host) => uri_host(uri@) == Ok::<Option<Seq<char>>, Seq<char>>(host.deep_view()),
            Err(words) => uri_host(uri@) == Err::<Option<Seq<char>>, Seq<char>>(words@),
        },
{
    match uri.parse::<http::Uri>() {
        Ok(parsed) => Ok(parsed.host().map(str::to_owned)),
        Err(error) => Err(error.to_string()),
    }
}

/// Calls `handshake::client::generate_key` of the `tungstenite` crate: a random key for
/// the `Sec-WebSocket-Key` header. Nothing is stated of it.
#[verifier::external_body]
fn fresh_handshake_key() -> (key: String) {
    tokio_tungstenite::tungstenite::handshake::client::generate_key()
}

/// The request that opens the socket: where to, and with which headers.
#[derive(Debug, Clone, PartialEq, Eq)]
pub struct HandshakeRequest {
    pub uri: String,
    pub headers: Vec<(String, String)>,
}

/// The headers of the request that opens the socket, in order.
pub open spec fn handshake_headers(
    host: Seq<char>,
    key: Seq<char>,
    authorization: Seq<(Seq<char>, Seq<char>)>,
) -> Seq<(Seq<char>, Seq<char>)> {
    seq![
        ("Host"@, host),
        ("Connection"@, "Upgrade"@),
        ("Upgrade"@, "websocket"@),
        ("Sec-WebSocket-Version"@, "13"@),
        ("Sec-WebSocket-Key"@, key),
        ("Sec-WebSocket-Protocol"@, subprotocols(authorization)),
    ]
}

/// Opens connections to the event service at one address.
pub struct AppSyncMessageReceiver<A: Authenticator> {
    authenticator: Arc<A>,
    uri: String,
}

impl<A: Authenticator> AppSyncMessageReceiver<A> {
    /// The address that the receiver connects to.
    pub closed spec fn uri(&self) -> Seq<char> {
        self.uri@
    }

    /// The headers that authorise opening a connection.
    pub closed spec fn connect_headers(&self) -> Seq<(Seq<char>, Seq<char>)> {
        self.authenticator.subscribe_headers()
    }

    /// The headers that authorise a subscription on a connection that was opened.
    pub closed spec fn channel_headers(&self) -> Seq<(Seq<char>, Seq<char>)> {
        self.authenticator.publish_headers()
    }

    /// A receiver for the service at `uri`.
    pub fn new(uri: &str, authenticator: Arc<A>) -> (receiver: Self)
        ensures
            receiver.uri() == uri@,
            receiver.connect_headers() == authenticator.subscribe_headers(),
            receiver.channel_headers() == authenticator.publish_headers(),
    {
        Self { authenticator, uri: uri.to_owned() }
    }

    /// The sub-protocol entry that carries the authorisation.
    pub fn auth_header(&self) -> (entry: String)
        ensures
            entry@ == authorization_protocol(self.connect_headers()),
    {
        let auth_components = self.authenticator.subscribe_auth_headers();
        build_authorization_protocol(&auth_components)
    }

    /// The request that opens the socket, with `key` as the key of the handshake.
    ///
    /// Fails where the address is no URI, with the words of the URI parser as the reason,
    /// and where the address names no host.
    pub fn handshake_with_key(&self, key: String) -> (request: Result<
        HandshakeRequest,
        MessageReceiverError,
    >)
        ensures
            match uri_host(self.uri()) {
                Ok(Some(host)) => request is Ok && request->Ok_0.uri@ == self.uri()
                    && request->Ok_0.headers.deep_view() == handshake_headers(
                    host,
                    key@,
                    self.connect_headers(),
                ),
                Ok(None) => request is Err && request->Err_0.reason() == "URI missing host"@,
                Err(words) => request is Err && request->Err_0.reason() == words,
            },
    {
        let auth_components = self.authenticator.subscribe_auth_headers();
        let subprotocols = build_subprotocols(&auth_components);
        let host = match parse_host(self.uri.as_str()) {
            Ok(Some(host)) => host,
            Ok(None) => {
                return Err(MessageReceiverError::ConnectionError("URI missing host".to_owned()));
            },
            Err(words) => {
                return Err(MessageReceiverError::ConnectionError(words));
            },
        };
        let mut headers: Vec<(String, String)> = Vec::new();
        headers.push(("Host".to_owned(), host));
        headers.push(("Connection".to_owned(), "Upgrade".to_owned()));
        headers.push(("Upgrade".to_owned(), "websocket".to_owned()));
        headers.push(("Sec-WebSocket-Version".to_owned(), "13".to_owned()));
        headers.push(("Sec-WebSocket-Key".to_owned(), key));
        headers.push(("Sec-WebSocket-Protocol".to_owned(), subprotocols));
        let request = HandshakeRequest { uri: self.uri.clone(), headers };
        Ok(request)
    }

    /// The request that opens the socket, with a fresh key.
    ///
    /// Fails where the address is no URI and where it names no host.
    pub fn handshake(&self) -> (request: Result<HandshakeRequest, MessageReceiverError>)
        ensures
            match uri_host(self.uri()) {
                Ok(Some(host)) => request is Ok && request->Ok_0.uri@ == self.uri() && exists|
                    key: Seq<char>,
                |
                    request->Ok_0.headers.deep_view() == #[trigger] handshake_headers(
                        host,
                        key,
                        self.connect_headers(),
                    ),
                Ok(None) => request is Err && request->Err_0.reason() == "URI missing host"@,
                Err(words) => request is Err && request->Err_0.reason() == words,
            },
    {
        let key = fresh_handshake_key();
        self.handshake_with_key(key)
    }

    /// What comes of one attempt to connect, given how the handshake went: an active
    /// connection without subscriptions where the service took the upgrade, and the
    /// reason as an error where it did not. There is no second attempt.
    pub fn listen(&self, upgrade: Result<(), String>) -> (connection: Result<
        AppSyncOpenConnection<A>,
        MessageReceiverError,
    >)
        ensures
            match upgrade {
                Ok(_) => connection is Ok && connection->Ok_0@ == (
                ConnectionView {
                    state: ConnectionState::Active,
                    subscriptions: Seq::empty(),
                    authorization: self.channel_headers(),
                }),
                Err(reason) => connection is Err && connection->Err_0.reason() == reason@,
            },
    {
        match upgrade {
            Ok(_) => Ok(AppSyncOpenConnection::new(Arc::clone(&self.authenticator))),
            Err(reason) => Err(MessageReceiverError::ConnectionError(reason)),
        }
    }
}

/// Subscribing is idempotent: of two requests in succession for one channel, whatever ids
/// they are made under, at most one puts a frame on the socket, and the channel is
/// afterwards subscribed at most once. Where the first request led to a subscription, or
/// the channel was subscribed before, the second puts no frame on the socket and changes
/// nothing, and the channel is subscribed exactly once.
pub proof fn lemma_subscribe_twice(
    connection: ConnectionView,
    channel: Seq<char>,
    first_id: Seq<char>,
    second_id: Seq<char>,
)
    requires
        distinct_names(connection.subscriptions),
    ensures
        ({
            let once = connection.subscribe(channel, first_id);
            let twice = once.subscribe(channel, second_id);
            let first = connection.subscribe_frame(channel, first_id);
            let second = once.subscribe_frame(channel, second_id);
            &&& first is Some <==> connection.takes(channel, first_id)
            &&& first is Some || has_name(connection.subscriptions, channel) ==> second is None
                && twice == once && twice.count(channel) == 1
            &&& has_name(connection.subscriptions, channel) ==> first is None
            &&& !(first is Some && second is Some)
            &&& twice.count(channel) <= 1
            &&& distinct_names(twice.subscriptions)
        }),
{
    let once = connection.subscribe(channel, first_id);
    let twice = once.subscribe(channel, second_id);
    lemma_position_of(connection.subscriptions, channel);
    if connection.takes(channel, first_id) {
        lemma_position_found(once.subscriptions, channel, once.subscriptions.len() - 1);
    }
    lemma_position_of(once.subscriptions, channel);
    if once.takes(channel, second_id) {
        lemma_position_found(twice.subscriptions, channel, twice.subscriptions.len() - 1);
    }
    lemma_occurs_once(twice.subscriptions, channel);
}

/// The ids of a connection stay unique: where no two subscriptions are stored under one id,
/// none are after a request to subscribe, a request to unsubscribe, or the end of the
/// connection. A request to subscribe that leads to a subscription stores it under an id
/// that no subscription was stored under.
pub proof fn lemma_ids_stay_unique(connection: ConnectionView, channel: Seq<char>, id: Seq<char>)
    requires
        distinct_texts(connection.subscriptions),
    ensures
        distinct_texts(connection.subscribe(channel, id).subscriptions),
        distinct_texts(connection.unsubscribe(channel).subscriptions),
        distinct_texts(connection.close().subscriptions),
        connection.subscribe_frame(channel, id) is Some ==> !connection.uses(id)
            && connection.subscribe(channel, id).subscriptions == connection.subscriptions.push(
            (channel, id),
        ),
{
    lemma_position_of(connection.subscriptions, channel);
}

/// Unsubscribing from a channel that is not subscribed puts no frame on the socket and
/// changes nothing.
pub proof fn lemma_unsubscribe_unknown(connection: ConnectionView, channel: Seq<char>)
    requires
        !has_name(connection.subscriptions, channel),
    ensures
        connection.unsubscribe(channel) == connection,
        connection.unsubscribe_frame(channel) is None,
{
}

/// Giving up a connection with the given subscriptions puts one unsubscribe frame on the
/// socket for each of them, carrying its id, and leaves no subscription.
pub proof fn lemma_close_unsubscribes_all(connection: ConnectionView)
    requires
        connection.active(),
    ensures
        connection.close().state == ConnectionState::Closing,
        connection.close().subscriptions.len() == 0,
        connection.close_frames().len() == connection.subscriptions.len(),
        forall|i: int|
            0 <= i < connection.subscriptions.len() ==> #[trigger] connection.close_frames()[i]
                == unsubscribe_frame(connection.subscriptions[i].1),
        connection.close().close_frames().len() == 0,
{
}

} // verus!
