use vstd::prelude::*;

use crate::message::{Message, MessageView};
use crate::task_queue::{queued, Task, TaskQueue, TaskView};
use crate::text::{after_mark, before_mark, same_text, split_at_mark};

verus! {

/// Whether the source of commands goes on reading.
#[derive(Debug, Clone, Copy, PartialEq, Eq, Structural)]
pub enum UIStatus {
    Continue,
    Stop,
}

/// What a line of input asks for.
pub enum Command {
    /// The line is empty: nothing is asked for.
    Empty,
    /// `add_channel <channel>`
    AddChannel(Seq<char>),
    /// `remove_channel <channel>`
    RemoveChannel(Seq<char>),
    /// `send <sender> <channel> <contents>`; the contents may hold blanks.
    Send(MessageView),
    /// `exit`
    Exit,
    /// Any other first word.
    Unknown,
}

/// The first word of `line`: what stands before its first blank.
pub open spec fn word(line: Seq<char>) -> Seq<char> {
    before_mark(line, ' ')
}

/// What follows the first word and its blank.
pub open spec fn rest(line: Seq<char>) -> Seq<char> {
    after_mark(line, ' ')
}

/// The command that `line` holds. A line is cut at its first three blanks: the command,
/// two arguments of one word each, and a last argument that takes what is left. An
/// argument that the line does not reach is empty.
pub open spec fn command_of(line: Seq<char>) -> Command {
    let command = word(line);
    let arg1 = word(rest(line));
    let arg2 = word(rest(rest(line)));
    let arg3 = rest(rest(rest(line)));
    if command == ""@ {
        Command::Empty
    } else if command == "add_channel"@ {
        Command::AddChannel(arg1)
    } else if command == "remove_channel"@ {
        Command::RemoveChannel(arg1)
    } else if command == "send"@ {
        Command::Send(MessageView { sender: arg1, channel: arg2, contents: arg3 })
    } else if command == "exit"@ {
        Command::Exit
    } else {
        Command::Unknown
    }
}

/// What came of a line: whether to go on, and what to tell the user.
#[derive(Debug, PartialEq, Eq)]
pub struct Reply {
    pub status: UIStatus,
    pub notice: Option<String>,
}

/// A source of commands that reads lines of text.
pub struct SimplifiedUI {}

impl SimplifiedUI {
    /// The source of commands.
    pub fn new() -> Self {
        Self {  }
    }

    /// Carries out the command that `line` holds: a change of subscription and a message
    /// to send each become the last task of `queue`; `exit` stops the reading; an unknown
    /// command is answered with a notice; an empty line does nothing.
    pub fn handle_command(task_queue: &mut TaskQueue, line: &str) -> (reply: Reply)
        ensures
            reply.status == if command_of(line@) is Exit {
                UIStatus::Stop
            } else {
                UIStatus::Continue
            },
            command_of(line@) is Unknown ==> reply.notice.deep_view() == Some(
                "Unknown command"@,
            ),
            !(command_of(line@) is Unknown) ==> reply.notice is None,
            match command_of(line@) {
                Command::AddChannel(channel) => queued(
                    old(task_queue)@,
                    final(task_queue)@,
                    TaskView::SubscribeChannel(channel),
                ),
                Command::RemoveChannel(channel) => queued(
                    old(task_queue)@,
                    final(task_queue)@,
                    TaskView::UnsubscribeChannel(channel),
                ),
                Command::Send(message) => queued(
                    old(task_queue)@,
                    final(task_queue)@,
                    TaskView::OutboundMessage(message),
                ),
                _ => final(task_queue)@ == old(task_queue)@,
            },
    {
        let (command, rest1) = split_at_mark(line, ' ');
        let (arg1, rest2) = split_at_mark(rest1.as_str(), ' ');
        let (arg2, arg3) = split_at_mark(rest2.as_str(), ' ');
        let ghost before = task_queue@;
        if same_text(command.as_str(), "") {
            Reply { status: UIStatus::Continue, notice: None }
        } else if same_text(command.as_str(), "add_channel") {
            task_queue.push(Task::new_channel(arg1));
            assert(task_queue@.drop_last() =~= before);
            Reply { status: UIStatus::Continue, notice: None }
        } else if same_text(command.as_str(), "remove_channel") {
            task_queue.push(Task::remove_channel(arg1));
            assert(task_queue@.drop_last() =~= before);
            Reply { status: UIStatus::Continue, notice: None }
        } else if same_text(command.as_str(), "send") {
            let message = Message { sender: arg1, channel: arg2, contents: arg3 };
            task_queue.push(Task::send_message(message));
            assert(task_queue@.drop_last() =~= before);
            Reply { status: UIStatus::Continue, notice: None }
        } else if same_text(command.as_str(), "exit") {
            Reply { status: UIStatus::Stop, notice: None }
        } else {
            Reply { status: UIStatus::Continue, notice: Some("Unknown command".to_owned()) }
        }
    }

    /// One turn of the loop that reads the input: `line` is the line that was read, or
    /// `None` where the input has ended. A line is carried out as a command. Where the
    /// reading stops, at `exit` or at the end of the input, the request to end the control
    /// loop becomes the last task of `queue`.
    pub fn on_line(task_queue: &mut TaskQueue, line: Option<&str>) -> (reply: Reply)
        ensures
            match line {
                Some(text) => match command_of(text@) {
                    Command::AddChannel(channel) => reply.status == UIStatus::Continue && queued(
                        old(task_queue)@,
                        final(task_queue)@,
                        TaskView::SubscribeChannel(channel),
                    ),
                    Command::RemoveChannel(channel) => reply.status == UIStatus::Continue
                        && queued(
                        old(task_queue)@,
                        final(task_queue)@,
                        TaskView::UnsubscribeChannel(channel),
                    ),
                    Command::Send(message) => reply.status == UIStatus::Continue && queued(
                        old(task_queue)@,
                        final(task_queue)@,
                        TaskView::OutboundMessage(message),
                    ),
                    Command::Exit => reply.status == UIStatus::Stop && queued(
                        old(task_queue)@,
                        final(task_queue)@,
                        TaskView::Terminate,
                    ),
                    _ => reply.status == UIStatus::Continue && final(task_queue)@ == old(
                        task_queue,
                    )@,
                },
                None => reply.status == UIStatus::Stop && queued(
                    old(task_queue)@,
                    final(task_queue)@,
                    TaskView::Terminate,
                ),
            },
            (line matches Some(text) && command_of(text@) is Unknown) ==> reply.notice.deep_view()
                == Some("Unknown command"@),
            !(line matches Some(text) && command_of(text@) is Unknown) ==> reply.notice is None,
    {
        let ghost before = task_queue@;
        let reply = match line {
            Some(text) => Self::handle_command(task_queue, text),
            None => Reply { status: UIStatus::Stop, notice: None },
        };
        if reply.status == UIStatus::Stop {
            task_queue.push(Task::exit());
            assert(task_queue@.drop_last() =~= before);
        }
        reply
    }
}

} // verus!
