use vstd::prelude::*;

use super::{MessageReceiverError, OpenConnection};
use crate::message::{Message, MessageView};
use crate::task_queue::{queued, Task, TaskQueue, TaskView};
use crate::text::same_text;

verus! {

/// `names` without every occurrence of `name`.
pub open spec fn without(names: Seq<Seq<char>>, name: Seq<char>) -> Seq<Seq<char>> {
    names.filter(|n: Seq<char>| n != name)
}

/// A connection that talks to no service: it keeps the channel names it is given and
/// passes on what it is handed.
pub struct DummyOpenConnection {
    channels: Vec<String>,
}

/// A receiver that connects to no service.
pub struct DummyMessageReceiver {}

impl DummyOpenConnection {
    /// A connection without channels.
    pub fn new() -> (connection: Self)
        ensures
            connection.subscribed() == Seq::<Seq<char>>::empty(),
    {
        DummyOpenConnection { channels: Vec::new() }
    }

    /// The message that the connection makes up at each tick of its clock.
    pub fn greeting() -> (message: Message)
        ensures
            message@.sender == "dummy"@,
            message@.channel == "dummy"@,
            message@.contents == "Hello, Dummy!"@,
    {
        Message::new("dummy", "dummy", "Hello, Dummy!")
    }
}

impl DummyOpenConnection {
    /// One tick of the clock: the greeting becomes the last task of `queue`.
    pub fn tick(&self, queue: &mut TaskQueue)
        ensures
            queued(
                old(queue)@,
                final(queue)@,
                TaskView::InboundMessage(
                    MessageView {
                        sender: "dummy"@,
                        channel: "dummy"@,
                        contents: "Hello, Dummy!"@,
                    },
                ),
            ),
    {
        self.receive_message(Self::greeting(), queue);
        assert(queue@.drop_last() =~= old(queue)@);
    }
}

impl DummyOpenConnection {
    /// Whether `channel` is among the names that the connection keeps.
    pub fn is_subscribed(&self, channel: &str) -> (found: bool)
        ensures
            found == self.subscribed().contains(channel@),
    {
        let mut i: usize = 0;
        while i < self.channels.len()
            invariant
                i <= self.channels.len(),
                self.subscribed().len() == self.channels.len(),
                forall|j: int| 0 <= j < i ==> self.subscribed()[j] != channel@,
            decreases self.channels.len() - i,
        {
            if same_text(self.channels[i].as_str(), channel) {
                assert(self.subscribed()[i as int] == channel@);
                return true;
            }
            i = i + 1;
        }
        false
    }
}

/// The seconds between two ticks of the clock of a [`DummyOpenConnection`].
pub const TICK_SECONDS: u64 = 3;

impl OpenConnection for DummyOpenConnection {
    closed spec fn subscribed(&self) -> Seq<Seq<char>> {
        self.channels.deep_view()
    }

    open spec fn forwards(&self) -> bool {
        true
    }

    /// The name is added at the end, unless it is there already; no frame.
    open spec fn adds(&self, channel: Seq<char>, after: &Self, frame: Option<Seq<char>>) -> bool {
        frame is None && after.subscribed() == if self.subscribed().contains(channel) {
            self.subscribed()
        } else {
            self.subscribed().push(channel)
        }
    }

    /// Every occurrence of the name goes; no frame.
    open spec fn removes(&self, channel: Seq<char>, after: &Self, frame: Option<Seq<char>>) -> bool {
        after.subscribed() == without(self.subscribed(), channel) && frame is None
    }

    fn add_channel(&mut self, channel: &str) -> (frame: Option<String>)
        ensures
            final(self).subscribed().contains(channel@),
    {
        if !self.is_subscribed(channel) {
            self.channels.push(channel.to_owned());
            assert(self.channels.deep_view() =~= old(self).channels.deep_view().push(channel@));
            assert(self.subscribed().last() == channel@);
        }
        None
    }

    fn remove_channel(&mut self, channel: &str) -> (frame: Option<String>) {
        let mut kept: Vec<String> = Vec::new();
        let mut i: usize = 0;
        let ghost names = self.channels.deep_view();
        while i < self.channels.len()
            invariant
                i <= self.channels.len(),
                names == self.channels.deep_view(),
                names.len() == self.channels.len(),
                kept.deep_view() == without(names.take(i as int), channel@),
            decreases self.channels.len() - i,
        {
            proof {
                assert(names.take(i + 1).drop_last() =~= names.take(i as int));
                reveal(Seq::filter);
            }
            if !same_text(self.channels[i].as_str(), channel) {
                kept.push(self.channels[i].clone());
            }
            i = i + 1;
        }
        assert(names.take(i as int) =~= names);
        self.channels = kept;
        None
    }

    fn channels(&self) -> (names: Vec<String>) {
        let mut names: Vec<String> = Vec::new();
        let mut i: usize = 0;
        while i < self.channels.len()
            invariant
                i <= self.channels.len(),
                names.deep_view() == self.channels.deep_view().take(i as int),
            decreases self.channels.len() - i,
        {
            let ghost before = names.deep_view();
            names.push(self.channels[i].clone());
            assert(names.deep_view() =~= before.push(self.channels[i as int]@));
            i = i + 1;
        }
        names
    }

    fn receive_message(&self, message: Message, queue: &mut TaskQueue) {
        queue.push(Task::receive_message(message));
    }
}

impl DummyMessageReceiver {
    /// The receiver.
    pub fn new() -> Self {
        Self {  }
    }

    /// Opens a connection, which always succeeds.
    pub fn listen(&self) -> (connection: Result<DummyOpenConnection, MessageReceiverError>)
        ensures
            connection is Ok,
            connection->Ok_0.subscribed() == Seq::<Seq<char>>::empty(),
    {
        Ok(DummyOpenConnection::new())
    }
}

} // verus!
