//! An example of a plugin's rule: it answers `world!` to every message that
//! says `hello`.

use crate::command::{Command, CommandView};
use crate::event::{Event, EventView};
use crate::text::{contains_text, holds_text};
use vstd::prelude::*;
use vstd::string::*;

verus! {

/// The answer of the plugin to an event: to a message that holds `hello`,
/// `world!` to where it came from; to anything else, none.
pub open spec fn hello_reply(event: EventView) -> Option<CommandView> {
    match event {
        EventView::Privmsg { from, content } => if holds_text(content, "hello"@) {
            Some(CommandView::Privmsg { to: from, content: "world!"@ })
        } else {
            None
        },
        EventView::Joined { .. } => None,
    }
}

/// The command that the plugin sends on an event, if it sends one.
pub fn reply(event: Event) -> (r: Option<Command>)
    ensures
        match r {
            Some(command) => hello_reply(event@) == Some(command@),
            None => hello_reply(event@) is None,
        },
{
    match event {
        Event::Privmsg { from, content } => {
            if contains_text(content.as_str(), "hello") {
                Some(Command::Privmsg { to: from, content: String::from_str("world!") })
            } else {
                None
            }
        },
        Event::Joined { .. } => None,
    }
}

} // verus!
