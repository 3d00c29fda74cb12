//! The decisions of the two loops of the host.
//!
//! The forward path takes each message of the session, and the command path
//! each payload that a plugin pushed. The caller does the reading and the
//! writing; the functions here say what is to be done with what was read.
//! No outcome ends a loop: after each step the caller reads on.

use crate::command::{Command, CommandView};
use crate::decode::{command_of_text, event_of_text};
use crate::error::{Error, ErrorView};
use crate::event::{classify, Event, EventView};
use crate::message::IrcMessage;
use crate::wire::event_text;
use vstd::prelude::*;

verus! {

/// What the forward path does with one inbound message.
#[derive(Clone, Debug, PartialEq, Eq)]
pub enum Forward {
    /// Write `payload`, the text of `event`, on the broadcast channel.
    Publish { event: Event, payload: String },
    /// The message stands for no event. It is logged and passed over.
    Unhandled(IrcMessage),
    /// The event could not be written as text. The error is logged and the
    /// event is dropped. `handle_msg` never answers so: it is the place of
    /// a failure of the writer, should one ever be possible.
    Dropped { event: Event, error: Error },
}

/// What the command path does with what it read from the aggregation channel.
#[derive(Clone, Debug, PartialEq, Eq)]
pub enum ListenStep {
    /// A command arrived: hand it to the handler.
    Handle(Command),
    /// Nothing usable arrived: log the error.
    Report(Error),
}

/// A [`ListenStep`] with its texts as sequences of characters.
pub enum ListenStepView {
    Handle(CommandView),
    Report(ErrorView),
}

impl View for ListenStep {
    type V = ListenStepView;

    open spec fn view(&self) -> ListenStepView {
        match self {
            ListenStep::Handle(c) => ListenStepView::Handle(c@),
            ListenStep::Report(e) => ListenStepView::Report(e@),
        }
    }
}

/// What a read on the aggregation channel amounts to: the command of the
/// payload, the fault of a payload that holds none, or the failure of the
/// transport with its words.
pub open spec fn received_command(received: Result<Seq<char>, Seq<char>>) -> Result<
    CommandView,
    ErrorView,
> {
    match received {
        Err(words) => Err(ErrorView::Transport(words)),
        Ok(text) => match command_of_text(text) {
            Ok(command) => Ok(command),
            Err(fault) => Err(ErrorView::Deserialization(fault)),
        },
    }
}

/// What a read on the broadcast channel amounts to, on the side of a plugin.
pub open spec fn received_event(received: Result<Seq<char>, Seq<char>>) -> Result<
    EventView,
    ErrorView,
> {
    match received {
        Err(words) => Err(ErrorView::Transport(words)),
        Ok(text) => match event_of_text(text) {
            Ok(event) => Ok(event),
            Err(fault) => Err(ErrorView::Deserialization(fault)),
        },
    }
}

/// The texts of what a read gave.
pub open spec fn read_view(received: Result<String, String>) -> Result<Seq<char>, Seq<char>> {
    match received {
        Ok(text) => Ok(text@),
        Err(words) => Err(words@),
    }
}

/// Handles a received message: the event it stands for is to be published,
/// and a message that stands for none is to be logged. An event is always
/// written, so nothing is dropped here.
pub fn handle_msg(msg: IrcMessage) -> (step: Forward)
    ensures
        match step {
            Forward::Publish { event, payload } => classify(msg@) == Some(event@) && payload@
                == event_text(event@),
            Forward::Unhandled(m) => classify(msg@) is None && m == msg,
            Forward::Dropped { .. } => false,
        },
{
    match Event::from_message(msg) {
        Ok(event) => match event.encode() {
            Ok(payload) => Forward::Publish { event, payload },
            Err(error) => Forward::Dropped { event, error },
        },
        Err(msg) => Forward::Unhandled(msg),
    }
}

/// Reads a command sent by some plugin. `received` is what reading the
/// aggregation channel gave: the payload, or the words of the transport's
/// error.
pub fn recv_command(received: Result<String, String>) -> (r: Result<Command, Error>)
    ensures
        match r {
            Ok(command) => received_command(read_view(received)) == Ok::<_, ErrorView>(command@),
            Err(e) => received_command(read_view(received)) == Err::<CommandView, _>(e@),
        },
{
    match received {
        Err(words) => Err(Error::Transport(words)),
        Ok(text) => Command::decode(text.as_str()),
    }
}

/// Reads the next event, on the side of a plugin. `received` is what reading
/// the broadcast channel gave: the payload, or the words of the transport's
/// error.
pub fn recv_event(received: Result<String, String>) -> (r: Result<Event, Error>)
    ensures
        match r {
            Ok(event) => received_event(read_view(received)) == Ok::<_, ErrorView>(event@),
            Err(e) => received_event(read_view(received)) == Err::<EventView, _>(e@),
        },
{
    match received {
        Err(words) => Err(Error::Transport(words)),
        Ok(text) => Event::decode(text.as_str()),
    }
}

/// The step for what a read gave.
pub open spec fn step_of(received: Result<Seq<char>, Seq<char>>) -> ListenStepView {
    match received_command(received) {
        Ok(command) => ListenStepView::Handle(command),
        Err(error) => ListenStepView::Report(error),
    }
}

/// The commands that reach the handler when the listen loop makes these
/// reads one after the other.
pub open spec fn handled(reads: Seq<Result<Seq<char>, Seq<char>>>) -> Seq<CommandView>
    decreases reads.len(),
{
    if reads.len() == 0 {
        Seq::empty()
    } else {
        match step_of(reads.last()) {
            ListenStepView::Handle(command) => handled(reads.drop_last()).push(command),
            ListenStepView::Report(_) => handled(reads.drop_last()),
        }
    }
}

/// One turn of the listen loop. A command goes to the handler; a payload
/// that holds none, or a failed read, is reported. Whatever came before, the
/// step depends on what was read this time alone.
pub fn listen_step(received: Result<String, String>) -> (step: ListenStep)
    ensures
        step@ == step_of(read_view(received)),
{
    match recv_command(received) {
        Ok(command) => ListenStep::Handle(command),
        Err(error) => ListenStep::Report(error),
    }
}

/// The listen loop outlives a read that gives no command: whatever was read
/// before, and whatever is wrong with `bad`, the command of a payload that
/// follows it reaches the handler, after those that reached it before.
pub proof fn lemma_listen_outlives_a_bad_read(
    before: Seq<Result<Seq<char>, Seq<char>>>,
    bad: Result<Seq<char>, Seq<char>>,
    good: Seq<char>,
)
    requires
        received_command(bad) is Err,
        command_of_text(good) is Ok,
    ensures
        handled(before.push(bad).push(Ok(good))) == handled(before).push(
            command_of_text(good)->Ok_0,
        ),
{
    let one = before.push(bad);
    let two = one.push(Ok(good));
    assert(two.last() == Ok::<Seq<char>, Seq<char>>(good));
    assert(two.drop_last() == one);
    assert(one.last() == bad);
    assert(one.drop_last() == before);
    assert(handled(one) == handled(before));
    assert(handled(two) == handled(one).push(command_of_text(good)->Ok_0));
}

} // verus!
