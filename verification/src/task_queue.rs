use std::collections::VecDeque;
use vstd::prelude::*;

use crate::message::{Message, MessageView};

verus! {

/// What a task asks of the control loop.
#[derive(Debug, Clone, PartialEq, Eq)]
pub enum TaskData {
    /// A message of the user, to be published.
    OutboundMessage(Message),
    /// A message that arrived on a subscribed channel, to be shown.
    InboundMessage(Message),
    /// A request to subscribe to the named channel.
    SubscribeChannel(String),
    /// A request to unsubscribe from the named channel.
    UnsubscribeChannel(String),
    /// The request to end the control loop.
    Terminate,
}

/// One unit of work for the control loop.
#[derive(Debug, Clone, PartialEq, Eq)]
pub struct Task {
    pub data: TaskData,
}

/// What a [`Task`] asks for, with its texts as sequences of characters.
pub enum TaskView {
    OutboundMessage(MessageView),
    InboundMessage(MessageView),
    SubscribeChannel(Seq<char>),
    UnsubscribeChannel(Seq<char>),
    Terminate,
}

impl View for Task {
    type V = TaskView;

    open spec fn view(&self) -> TaskView {
        match self.data {
            TaskData::OutboundMessage(message) => TaskView::OutboundMessage(message@),
            TaskData::InboundMessage(message) => TaskView::InboundMessage(message@),
            TaskData::SubscribeChannel(channel) => TaskView::SubscribeChannel(channel@),
            TaskData::UnsubscribeChannel(channel) => TaskView::UnsubscribeChannel(channel@),
            TaskData::Terminate => TaskView::Terminate,
        }
    }
}

/// Whether `after` is `before` with one more task at its end, which asks for `task`.
pub open spec fn queued(before: Seq<Task>, after: Seq<Task>, task: TaskView) -> bool {
    &&& after.len() == before.len() + 1
    &&& after.drop_last() == before
    &&& after.last()@ == task
}

impl Task {
    /// The task that publishes `message`.
    pub fn send_message(message: Message) -> (task: Task)
        ensures
            task.data == TaskData::OutboundMessage(message),
    {
        Task { data: TaskData::OutboundMessage(message) }
    }

    /// The task that shows `message`, which arrived from the service.
    pub fn receive_message(message: Message) -> (task: Task)
        ensures
            task.data == TaskData::InboundMessage(message),
    {
        Task { data: TaskData::InboundMessage(message) }
    }

    /// The task that subscribes to `channel`.
    pub fn new_channel(channel: String) -> (task: Task)
        ensures
            task.data == TaskData::SubscribeChannel(channel),
    {
        Task { data: TaskData::SubscribeChannel(channel) }
    }

    /// The task that unsubscribes from `channel`.
    pub fn remove_channel(channel: String) -> (task: Task)
        ensures
            task.data == TaskData::UnsubscribeChannel(channel),
    {
        Task { data: TaskData::UnsubscribeChannel(channel) }
    }

    /// The task that ends the control loop.
    pub fn exit() -> (task: Task)
        ensures
            task.data == TaskData::Terminate,
    {
        Task { data: TaskData::Terminate }
    }

    /// Whether it is the task that ends the control loop.
    pub fn is_exit(&self) -> (stop: bool)
        ensures
            stop == (self.data == TaskData::Terminate),
    {
        match self.data {
            TaskData::Terminate => true,
            _ => false,
        }
    }
}

/// The mailbox of the control loop: tasks leave in the order in which they came.
///
/// Its view is the sequence of waiting tasks, the next one to leave first.
pub struct TaskQueue {
    queue: VecDeque<Task>,
}

impl View for TaskQueue {
    type V = Seq<Task>;

    closed spec fn view(&self) -> Seq<Task> {
        self.queue@
    }
}

impl TaskQueue {
    /// An empty queue.
    pub fn new() -> (queue: TaskQueue)
        ensures
            queue@ == Seq::<Task>::empty(),
    {
        TaskQueue { queue: VecDeque::new() }
    }

    /// Puts `task` behind every task that waits.
    pub fn push(&mut self, task: Task)
        ensures
            final(self)@ == old(self)@.push(task),
    {
        self.queue.push_back(task);
    }

    /// Takes the task that has waited longest, if any waits.
    pub fn pop(&mut self) -> (task: Option<Task>)
        ensures
            old(self)@.len() == 0 ==> task is None && final(self)@ == old(self)@,
            old(self)@.len() > 0 ==> task == Some(old(self)@[0]) && final(self)@ == old(
                self,
            )@.drop_first(),
    {
        self.queue.pop_front()
    }

    /// The number of tasks that wait.
    pub fn len(&self) -> (n: usize)
        ensures
            n == self@.len(),
    {
        proof {
            vstd::std_specs::vecdeque::axiom_spec_len(&self.queue);
        }
        self.queue.len()
    }

    /// Whether no task waits.
    pub fn is_empty(&self) -> (empty: bool)
        ensures
            empty == (self@.len() == 0),
    {
        self.len() == 0
    }
}

/// One operation on a queue: a producer's push or the consumer's pop.
pub enum QueueOp {
    Push(Task),
    Pop,
}

/// The queue that `ops`, applied in order, leave of `queue`.
pub open spec fn queue_after(queue: Seq<Task>, ops: Seq<QueueOp>) -> Seq<Task>
    decreases ops.len(),
{
    if ops.len() == 0 {
        queue
    } else {
        let before = queue_after(queue, ops.drop_last());
        match ops.last() {
            QueueOp::Push(task) => before.push(task),
            QueueOp::Pop => if before.len() > 0 {
                before.drop_first()
            } else {
                before
            },
        }
    }
}

/// The tasks that the pops among `ops` hand out, in the order of the pops.
pub open spec fn popped_by(queue: Seq<Task>, ops: Seq<QueueOp>) -> Seq<Task>
    decreases ops.len(),
{
    if ops.len() == 0 {
        Seq::empty()
    } else {
        let before = queue_after(queue, ops.drop_last());
        let earlier = popped_by(queue, ops.drop_last());
        match ops.last() {
            QueueOp::Push(_) => earlier,
            QueueOp::Pop => if before.len() > 0 {
                earlier.push(before[0])
            } else {
                earlier
            },
        }
    }
}

/// The tasks that the pushes among `ops` put in, in the order of the pushes.
pub open spec fn pushed_by(ops: Seq<QueueOp>) -> Seq<Task>
    decreases ops.len(),
{
    if ops.len() == 0 {
        Seq::empty()
    } else {
        match ops.last() {
            QueueOp::Push(task) => pushed_by(ops.drop_last()).push(task),
            QueueOp::Pop => pushed_by(ops.drop_last()),
        }
    }
}

/// First in, first out: however pushes and pops alternate, the tasks handed out so far,
/// followed by the tasks that still wait, are the tasks that waited at the start followed
/// by the pushed tasks, in the order of the pushes. No task is lost, doubled or overtaken.
pub proof fn lemma_fifo_order(queue: Seq<Task>, ops: Seq<QueueOp>)
    ensures
        popped_by(queue, ops) + queue_after(queue, ops) == queue + pushed_by(ops),
    decreases ops.len(),
{
    if ops.len() > 0 {
        lemma_fifo_order(queue, ops.drop_last());
        if let QueueOp::Push(task) = ops.last() {
            assert(queue + pushed_by(ops.drop_last()).push(task) =~= (queue + pushed_by(
                ops.drop_last(),
            )).push(task));
        }
    }
}

/// Tasks pushed onto an empty queue come out of as many pops in the order of the pushes.
pub proof fn lemma_pushes_then_pops(tasks: Seq<Task>)
    ensures
        popped_by(Seq::empty(), pushes_of(tasks) + pops(tasks.len())) == tasks,
        queue_after(Seq::empty(), pushes_of(tasks) + pops(tasks.len())) == Seq::<Task>::empty(),
{
    lemma_pushes(Seq::empty(), tasks);
    lemma_pops(Seq::empty(), pushes_of(tasks), tasks.len());
}

/// One push for each of `tasks`, in order.
pub open spec fn pushes_of(tasks: Seq<Task>) -> Seq<QueueOp> {
    Seq::new(tasks.len(), |i: int| QueueOp::Push(tasks[i]))
}

/// `n` pops.
pub open spec fn pops(n: nat) -> Seq<QueueOp> {
    Seq::new(n, |i: int| QueueOp::Pop)
}

proof fn lemma_pushes(queue: Seq<Task>, tasks: Seq<Task>)
    ensures
        queue_after(queue, pushes_of(tasks)) == queue + tasks,
        popped_by(queue, pushes_of(tasks)) == Seq::<Task>::empty(),
    decreases tasks.len(),
{
    if tasks.len() > 0 {
        lemma_pushes(queue, tasks.drop_last());
        assert(pushes_of(tasks).drop_last() =~= pushes_of(tasks.drop_last()));
    }
}

proof fn lemma_pops(queue: Seq<Task>, ops: Seq<QueueOp>, n: nat)
    requires
        n <= queue_after(queue, ops).len(),
    ensures
        queue_after(queue, ops + pops(n)) == queue_after(queue, ops).skip(n as int),
        popped_by(queue, ops + pops(n)) == popped_by(queue, ops) + queue_after(queue, ops).take(
            n as int,
        ),
    decreases n,
{
    if n > 0 {
        let m = (n - 1) as nat;
        lemma_pops(queue, ops, m);
        assert((ops + pops(n)).drop_last() =~= ops + pops(m));
    }
}

} // verus!
