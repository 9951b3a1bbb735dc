use vstd::prelude::*;

use crate::message::Message;
use crate::task_queue::{Task, TaskData, TaskQueue};

pub mod appsync_message_receiver;
pub mod dummy;

verus! {

/// Why no connection came about, or why an open one failed.
#[derive(Debug, Clone, PartialEq, Eq)]
pub enum MessageReceiverError {
    ConnectionError(String),
}

impl MessageReceiverError {
    /// The reason, as it was given.
    pub open spec fn reason(&self) -> Seq<char> {
        match self {
            MessageReceiverError::ConnectionError(reason) => reason@,
        }
    }

    /// The error as a line for the user.
    pub fn message(&self) -> (line: String)
        ensures
            line@ == "Connection Error: "@ + self.reason(),
    {
        match self {
            MessageReceiverError::ConnectionError(reason) => {
                let mut line = "Connection Error: ".to_owned();
                line.append(reason.as_str());
                line
            },
        }
    }
}

/// An open connection to the event service, as the control loop sees it.
///
/// The connection decides; the transport acts. A call that asks for a frame hands the
/// frame out, and the caller puts it on the socket.
pub trait OpenConnection {
    /// The names of the subscribed channels.
    spec fn subscribed(&self) -> Seq<Seq<char>>;

    /// Whether messages that arrive are passed on to the control loop.
    spec fn forwards(&self) -> bool;

    /// What `add_channel` may do: the connection before, the channel, the connection after,
    /// and the frame handed out.
    spec fn adds(&self, channel: Seq<char>, after: &Self, frame: Option<Seq<char>>) -> bool;

    /// What `remove_channel` may do: the connection before, the channel, the connection
    /// after, and the frame handed out.
    spec fn removes(&self, channel: Seq<char>, after: &Self, frame: Option<Seq<char>>) -> bool;

    /// Subscribes to `channel`. Hands out the frame to send, if one is to be sent.
    fn add_channel(&mut self, channel: &str) -> (frame: Option<String>)
        ensures
            old(self).adds(channel@, final(self), frame.deep_view()),
    ;

    /// Unsubscribes from `channel`. Hands out the frame to send, if one is to be sent.
    fn remove_channel(&mut self, channel: &str) -> (frame: Option<String>)
        ensures
            old(self).removes(channel@, final(self), frame.deep_view()),
    ;

    /// The names of the subscribed channels.
    fn channels(&self) -> (names: Vec<String>)
        ensures
            names.deep_view() == self.subscribed(),
    ;

    /// Passes a message that arrived on to the control loop, as the last task of `queue`.
    fn receive_message(&self, message: Message, queue: &mut TaskQueue)
        ensures
            self.forwards() ==> final(queue)@ == old(queue)@.push(
                Task { data: TaskData::InboundMessage(message) },
            ),
            !self.forwards() ==> final(queue)@ == old(queue)@,
    ;
}

} // verus!
