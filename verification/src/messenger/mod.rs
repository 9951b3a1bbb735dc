use std::sync::Arc;
use vstd::prelude::*;

use crate::authenticator::Authenticator;
use crate::message::{Message, MessageView};
use crate::message_receiver::{MessageReceiverError, OpenConnection};
use crate::message_sender::{MessageSendError, MessageSender, PublishRequest, PublishRequestView};
use crate::task_queue::{Task, TaskData, TaskQueue};

verus! {

/// What the control loop asks of its surroundings after it has looked at one task.
#[derive(Debug, PartialEq, Eq)]
pub enum Action {
    /// Make this request to publish a message. A failure is reported and the loop goes on.
    Publish(PublishRequest),
    /// Show this message to the user.
    Display(Message),
    /// Put this frame on the socket: it subscribes to the channel.
    Subscribe { channel: String, frame: String },
    /// Put this frame on the socket: it ends a subscription.
    Unsubscribe { frame: String },
    /// Nothing is to be done.
    Nothing,
    /// Leave the loop.
    Stop,
}

/// What an [`Action`] holds, as sequences of characters.
pub enum ActionView {
    Publish(PublishRequestView),
    Display(MessageView),
    Subscribe { channel: Seq<char>, frame: Seq<char> },
    Unsubscribe { frame: Seq<char> },
    Nothing,
    Stop,
}

impl View for Action {
    type V = ActionView;

    open spec fn view(&self) -> ActionView {
        match self {
            Action::Publish(request) => ActionView::Publish(request@),
            Action::Display(message) => ActionView::Display(message@),
            Action::Subscribe { channel, frame } => ActionView::Subscribe {
                channel: channel@,
                frame: frame@,
            },
            Action::Unsubscribe { frame } => ActionView::Unsubscribe { frame: frame@ },
            Action::Nothing => ActionView::Nothing,
            Action::Stop => ActionView::Stop,
        }
    }
}

/// What comes next while the messenger starts.
#[derive(Debug, PartialEq, Eq)]
pub enum Step {
    /// Open the connection.
    Connect,
    /// Start the source of commands and enter the control loop.
    Run,
    /// Give up, and tell the user why.
    Abort(String),
}

/// Whether `action` is what the control loop asks for after `task`, and `after` the
/// connection that it leaves of `before`.
///
/// A message to send goes to the sender, a message that arrived goes to the user, a
/// change of subscription goes to the connection, and the request to end stops the loop.
pub open spec fn dispatched<S: MessageSender, C: OpenConnection>(
    sender: &S,
    task: Task,
    before: &C,
    after: &C,
    action: ActionView,
) -> bool {
    match task.data {
        TaskData::OutboundMessage(message) => after == before && action == (match sender.transmits(
            message@,
        ) {
            Some(request) => ActionView::Publish(request),
            None => ActionView::Nothing,
        }),
        TaskData::InboundMessage(message) => after == before && action == ActionView::Display(
            message@,
        ),
        TaskData::SubscribeChannel(name) => match action {
            ActionView::Subscribe { channel, frame } => channel == name@ && before.adds(
                name@,
                after,
                Some(frame),
            ),
            ActionView::Nothing => before.adds(name@, after, None),
            _ => false,
        },
        TaskData::UnsubscribeChannel(name) => match action {
            ActionView::Unsubscribe { frame } => before.removes(name@, after, Some(frame)),
            ActionView::Nothing => before.removes(name@, after, None),
            _ => false,
        },
        TaskData::Terminate => after == before && action == ActionView::Stop,
    }
}

/// How many tasks the control loop takes from `tasks` before it comes to rest: all of
/// them up to and with the first request to end, or all where there is none.
pub open spec fn taken(tasks: Seq<Task>) -> nat
    decreases tasks.len(),
{
    if tasks.len() == 0 {
        0
    } else if tasks[0].data is Terminate {
        1
    } else {
        1 + taken(tasks.drop_first())
    }
}

/// Whether a request to end is among `tasks`.
pub open spec fn ends(tasks: Seq<Task>) -> bool {
    exists|i: int| 0 <= i < tasks.len() && (#[trigger] tasks[i]).data is Terminate
}

/// Whether the connections `trace` and the actions `actions` are a run of the control
/// loop over `tasks`: each task is dispatched on the connection that the one before left.
pub open spec fn is_run<S: MessageSender, C: OpenConnection>(
    sender: &S,
    tasks: Seq<Task>,
    trace: Seq<C>,
    actions: Seq<ActionView>,
) -> bool {
    &&& actions.len() == tasks.len()
    &&& trace.len() == tasks.len() + 1
    &&& forall|i: int|
        0 <= i < tasks.len() ==> #[trigger] dispatched(
            sender,
            tasks[i],
            &trace[i],
            &trace[i + 1],
            actions[i],
        )
}

/// The actions as sequences of characters, in order.
pub open spec fn views(actions: Seq<Action>) -> Seq<ActionView> {
    Seq::new(actions.len(), |i: int| actions[i]@)
}

/// The control loop stops at the first request to end: with one at `first` and none before
/// it, exactly the tasks up to and with it are taken.
pub proof fn lemma_taken_to_first_end(tasks: Seq<Task>, first: int)
    requires
        0 <= first < tasks.len(),
        tasks[first].data is Terminate,
        forall|i: int| 0 <= i < first ==> !((#[trigger] tasks[i]).data is Terminate),
    ensures
        taken(tasks) == first + 1,
        ends(tasks),
    decreases tasks.len(),
{
    if first > 0 {
        let rest = tasks.drop_first();
        assert forall|i: int| 0 <= i < first - 1 implies !((#[trigger] rest[i]).data
            is Terminate) by {}
        lemma_taken_to_first_end(rest, first - 1);
    }
}

/// Without a request to end, every task is taken.
pub proof fn lemma_taken_without_end(tasks: Seq<Task>)
    requires
        forall|i: int| 0 <= i < tasks.len() ==> !((#[trigger] tasks[i]).data is Terminate),
    ensures
        taken(tasks) == tasks.len(),
        !ends(tasks),
    decreases tasks.len(),
{
    if tasks.len() > 0 {
        let rest = tasks.drop_first();
        assert forall|i: int| 0 <= i < rest.len() implies !((#[trigger] rest[i]).data
            is Terminate) by {}
        lemma_taken_without_end(rest);
    }
}

/// Whether `step` is what follows the answer `accepted` of the authenticator: the
/// connection is opened where the credentials were accepted; otherwise the start is given
/// up, and the user is told so.
pub open spec fn follows_answer(step: Step, accepted: bool) -> bool {
    if accepted {
        step is Connect
    } else {
        step matches Step::Abort(line) && line@ == "Authentication Failed!"@
    }
}

/// The orchestrator: it starts the collaborators and runs the control loop, one task at a
/// time.
pub struct Messenger<TAuth: Authenticator, TSender: MessageSender> {
    authenticator: Arc<TAuth>,
    message_sender: TSender,
    running: bool,
}

impl<TAuth: Authenticator, TSender: MessageSender> Messenger<TAuth, TSender> {
    /// Whether the control loop runs.
    pub closed spec fn running(&self) -> bool {
        self.running
    }

    /// The sender that publishes for the messenger.
    pub closed spec fn sender(&self) -> &TSender {
        &self.message_sender
    }

    /// The authenticator that the messenger asks when it starts.
    pub closed spec fn authenticator(&self) -> TAuth {
        *self.authenticator
    }

    /// A messenger that has not started.
    pub fn new(authenticator: Arc<TAuth>, message_sender: TSender) -> (messenger: Self)
        ensures
            !messenger.running(),
            *messenger.sender() == message_sender,
            messenger.authenticator() == *authenticator,
    {
        Messenger { authenticator, message_sender, running: false }
    }

    /// Whether the control loop runs.
    pub fn is_running(&self) -> (running: bool)
        ensures
            running == self.running(),
    {
        self.running
    }

    /// What follows the answer of the authenticator: the connection is opened where the
    /// credentials were accepted; otherwise the start is given up.
    pub fn authenticated(accepted: bool) -> (step: Step)
        ensures
            follows_answer(step, accepted),
    {
        if accepted {
            Step::Connect
        } else {
            Step::Abort("Authentication Failed!".to_owned())
        }
    }

    /// Starts the messenger: asks the authenticator, and says what follows its answer.
    pub fn start(&self) -> (step: Step)
        ensures
            exists|accepted: bool|
                self.authenticator().answers(accepted) && #[trigger] follows_answer(
                    step,
                    accepted,
                ),
    {
        let accepted = self.authenticator.authenticate();
        Self::authenticated(accepted)
    }

    /// What follows the attempt to connect: the control loop runs where a connection came
    /// about; otherwise the start is given up with the reason. There is no second attempt.
    pub fn connected(&mut self, outcome: Result<(), MessageReceiverError>) -> (step: Step)
        ensures
            final(self).sender() == old(self).sender(),
            final(self).authenticator() == old(self).authenticator(),
            match outcome {
                Ok(_) => step is Run && final(self).running(),
                Err(error) => final(self).running() == old(self).running() && (step matches Step::Abort(
                    line,
                ) && line@ == "Could not connect: Connection Error: "@ + error.reason()),
            },
    {
        match outcome {
            Ok(_) => {
                self.running = true;
                Step::Run
            },
            Err(error) => {
                let mut line = "Could not connect: ".to_owned();
                line.append(error.message().as_str());
                assert(line@ =~= "Could not connect: Connection Error: "@ + error.reason()) by {
                    reveal_strlit("Could not connect: ");
                    reveal_strlit("Connection Error: ");
                    reveal_strlit("Could not connect: Connection Error: ");
                }
                Step::Abort(line)
            },
        }
    }

    /// The line that reports a message that could not be published. The loop goes on.
    pub fn publish_failed(error: &MessageSendError) -> (line: String)
        ensures
            error is HTTPError ==> line@ == "Error sending message: HTTP Error: "@
                + error.detail(),
            error is SendFailed ==> line@ == "Error sending message: Message Send Failed: "@
                + error.detail(),
    {
        let mut line = "Error sending message: ".to_owned();
        line.append(error.message().as_str());
        proof {
            reveal_strlit("Error sending message: ");
            reveal_strlit("HTTP Error: ");
            reveal_strlit("Message Send Failed: ");
            reveal_strlit("Error sending message: HTTP Error: ");
            reveal_strlit("Error sending message: Message Send Failed: ");
        }
        line
    }

    /// Looks at one task and says what is to be done.
    pub fn dispatch<C: OpenConnection>(&self, task: Task, connection: &mut C) -> (action: Action)
        ensures
            dispatched(self.sender(), task, old(connection), final(connection), action@),
    {
        match task.data {
            TaskData::OutboundMessage(message) => {
                match self.message_sender.send_text_message(message) {
                    Some(request) => Action::Publish(request),
                    None => Action::Nothing,
                }
            },
            TaskData::InboundMessage(message) => Action::Display(message),
            TaskData::SubscribeChannel(channel) => {
                match connection.add_channel(channel.as_str()) {
                    Some(frame) => Action::Subscribe { channel, frame },
                    None => Action::Nothing,
                }
            },
            TaskData::UnsubscribeChannel(channel) => {
                match connection.remove_channel(channel.as_str()) {
                    Some(frame) => Action::Unsubscribe { frame },
                    None => Action::Nothing,
                }
            },
            TaskData::Terminate => Action::Stop,
        }
    }

    /// Runs the control loop over the tasks that wait in `queue`: takes one task at a time,
    /// in order, and says for each what is to be done. The loop comes to rest where no
    /// task waits, and it ends for good at the first request to end, after which it takes
    /// no task: what was queued behind that request stays in the queue. A messenger whose
    /// loop does not run takes no task at all.
    pub fn handle_tasks<C: OpenConnection>(
        &mut self,
        queue: &mut TaskQueue,
        connection: &mut C,
    ) -> (actions: Vec<Action>)
        ensures
            final(self).sender() == old(self).sender(),
            final(self).authenticator() == old(self).authenticator(),
            !old(self).running() ==> {
                &&& actions@.len() == 0
                &&& final(queue)@ == old(queue)@
                &&& *final(connection) == *old(connection)
                &&& !final(self).running()
            },
            old(self).running() ==> {
                &&& actions@.len() == taken(old(queue)@)
                &&& final(queue)@ == old(queue)@.skip(taken(old(queue)@) as int)
                &&& final(self).running() == !ends(old(queue)@)
                &&& exists|trace: Seq<C>|
                    {
                        &&& #[trigger] is_run(
                            old(self).sender(),
                            old(queue)@.take(taken(old(queue)@) as int),
                            trace,
                            views(actions@),
                        )
                        &&& trace[0] == *old(connection)
                        &&& trace.last() == *final(connection)
                    }
            },
    {
        let mut actions: Vec<Action> = Vec::new();
        if !self.running {
            return actions;
        }
        let ghost tasks = queue@;
        let ghost mut trace: Seq<C> = seq![*connection];
        let mut done = false;
        let mut stopped = false;
        while !done
            invariant
                self.sender() == old(self).sender(),
                self.authenticator() == old(self).authenticator(),
                self.running() == !stopped,
                actions@.len() <= tasks.len(),
                queue@ == tasks.skip(actions@.len() as int),
                stopped ==> done && actions@.len() >= 1 && tasks[actions@.len() - 1].data
                    is Terminate,
                forall|i: int|
                    0 <= i < actions@.len() && !(stopped && i == actions@.len() - 1) ==> !((
                    #[trigger] tasks[i]).data is Terminate),
                done ==> stopped || actions@.len() == tasks.len(),
                is_run(
                    old(self).sender(),
                    tasks.take(actions@.len() as int),
                    trace,
                    views(actions@),
                ),
                trace[0] == *old(connection),
                trace.last() == *connection,
            decreases tasks.len() - actions@.len() + (if done { 0int } else { 1int }),
        {
            let ghost k: int = actions@.len() as int;
            let ghost before_trace = trace;
            let ghost before_views = views(actions@);
            match queue.pop() {
                None => {
                    done = true;
                },
                Some(task) => {
                    let stop = task.is_exit();
                    let action = self.dispatch(task, connection);
                    actions.push(action);
                    proof {
                        trace = trace.push(*connection);
                        let prefix = tasks.take(k + 1);
                        assert forall|i: int| 0 <= i < prefix.len() implies #[trigger] dispatched(
                            old(self).sender(),
                            prefix[i],
                            &trace[i],
                            &trace[i + 1],
                            views(actions@)[i],
                        ) by {
                            if i < k {
                                assert(dispatched(
                                    old(self).sender(),
                                    tasks.take(k)[i],
                                    &before_trace[i],
                                    &before_trace[i + 1],
                                    before_views[i],
                                ));
                            }
                        }
                    }
                    if stop {
                        self.running = false;
                        stopped = true;
                        done = true;
                    }
                },
            }
        }
        proof {
            let n: int = actions@.len() as int;
            if stopped {
                lemma_taken_to_first_end(tasks, n - 1);
            } else {
                lemma_taken_without_end(tasks);
            }
        }
        actions
    }
}

} // verus!
