//! What the plugins ask of the host, and what the host then does.

use crate::endpoint::{EndPointView, IrcEndPoint};
use vstd::prelude::*;

verus! {

/// A command sent by a plugin to the host.
#[derive(Clone, Debug, PartialEq, Eq)]
pub enum Command {
    /// Say `content` to the endpoint `to`.
    Privmsg { to: IrcEndPoint, content: String },
    /// Join the channel `chan`.
    Join { chan: String },
    /// Leave the channel `chan`.
    Part { chan: String },
    /// Reconnect to the server.
    Reconnect,
    /// Disconnect and stop.
    Exit,
}

/// A [`Command`] with its texts as sequences of characters.
pub enum CommandView {
    Privmsg { to: EndPointView, content: Seq<char> },
    Join { chan: Seq<char> },
    Part { chan: Seq<char> },
    Reconnect,
    Exit,
}

impl View for Command {
    type V = CommandView;

    open spec fn view(&self) -> CommandView {
        match self {
            Command::Privmsg { to, content } => CommandView::Privmsg { to: to@, content: content@ },
            Command::Join { chan } => CommandView::Join { chan: chan@ },
            Command::Part { chan } => CommandView::Part { chan: chan@ },
            Command::Reconnect => CommandView::Reconnect,
            Command::Exit => CommandView::Exit,
        }
    }
}

/// What the host does on the session for one command.
#[derive(Clone, Debug, PartialEq, Eq)]
pub enum ProtocolAction {
    /// Send the message `content` to `target`.
    Send { target: String, content: String },
    /// The command is accepted and nothing is done for it yet.
    NotYetImplemented(Command),
}

/// A [`ProtocolAction`] with its texts as sequences of characters.
pub enum ActionView {
    Send { target: Seq<char>, content: Seq<char> },
    NotYetImplemented(CommandView),
}

impl View for ProtocolAction {
    type V = ActionView;

    open spec fn view(&self) -> ActionView {
        match self {
            ProtocolAction::Send { target, content } => ActionView::Send {
                target: target@,
                content: content@,
            },
            ProtocolAction::NotYetImplemented(c) => ActionView::NotYetImplemented(c@),
        }
    }
}

/// The action for a command: a `Privmsg` is sent to the bare name of its
/// endpoint; every other command is kept for later.
pub open spec fn action_of(command: CommandView) -> ActionView {
    match command {
        CommandView::Privmsg { to, content } => ActionView::Send { target: to.name(), content },
        other => ActionView::NotYetImplemented(other),
    }
}

/// Turns a command into the action that the host takes on the session.
/// No command is refused.
pub fn to_protocol_action(command: Command) -> (action: ProtocolAction)
    ensures
        action@ == action_of(command@),
{
    match command {
        Command::Privmsg { to, content } => {
            let target = match to {
                IrcEndPoint::Chan(name) => name,
                IrcEndPoint::User(name) => name,
            };
            ProtocolAction::Send { target, content }
        },
        other => ProtocolAction::NotYetImplemented(other),
    }
}

} // verus!
