//! What the session saw, as told to the plugins.

use crate::endpoint::{parse_endpoint, EndPointView, IrcEndPoint};
use crate::message::{IrcMessage, MessageView};
use crate::text::same_text;
use vstd::prelude::*;

verus! {

/// An event witnessed by the host, transmitted to the plugins.
#[derive(Clone, Debug, PartialEq, Eq)]
pub enum Event {
    /// Somebody said `content`, to the channel `from` or in private.
    Privmsg { from: IrcEndPoint, content: String },
    /// Somebody joined the channel `chan`.
    Joined { chan: String },
}

/// An [`Event`] with its texts as sequences of characters.
pub enum EventView {
    Privmsg { from: EndPointView, content: Seq<char> },
    Joined { chan: Seq<char> },
}

impl View for Event {
    type V = EventView;

    open spec fn view(&self) -> EventView {
        match self {
            Event::Privmsg { from, content } => EventView::Privmsg {
                from: from@,
                content: content@,
            },
            Event::Joined { chan } => EventView::Joined { chan: chan@ },
        }
    }
}

/// The event that a message stands for, if it stands for one. Only a message
/// with a prefix and a trailing text does. A `PRIVMSG` with a destination is
/// a `Privmsg` from the endpoint that `parse_endpoint` finds; a `JOIN` is a
/// `Joined`. Every other message is none.
pub open spec fn classify(msg: MessageView) -> Option<EventView> {
    match (msg.prefix, msg.suffix) {
        (Some(prefix), Some(suffix)) => {
            if msg.command == "PRIVMSG"@ && msg.args.len() > 0 {
                match parse_endpoint(msg.args[0], prefix) {
                    Some(from) => Some(EventView::Privmsg { from, content: suffix }),
                    None => None,
                }
            } else if msg.command == "JOIN"@ {
                Some(EventView::Joined { chan: suffix })
            } else {
                None
            }
        },
        _ => None,
    }
}

/// A `PRIVMSG` with a sender, a destination and a trailing text is a
/// `Privmsg` whose source is what `parse_endpoint` makes of the destination
/// and the sender, and whose content is the trailing text.
pub proof fn lemma_privmsg_source(msg: MessageView)
    requires
        msg.command == "PRIVMSG"@,
        msg.args.len() > 0,
        msg.suffix is Some,
        msg.prefix is Some,
        parse_endpoint(msg.args[0], msg.prefix->0) is Some,
    ensures
        classify(msg) == Some(
            EventView::Privmsg {
                from: parse_endpoint(msg.args[0], msg.prefix->0)->0,
                content: msg.suffix->0,
            },
        ),
{
}

impl Event {
    /// Reads a protocol message as an event. A message that stands for none
    /// comes back as it was, for the caller to log or to ignore: that is no
    /// failure.
    pub fn from_message(msg: IrcMessage) -> (r: Result<Event, IrcMessage>)
        ensures
            match r {
                Ok(e) => classify(msg@) == Some(e@),
                Err(m) => classify(msg@) is None && m == msg,
            },
    {
        let event = match (&msg.prefix, &msg.suffix) {
            (Some(prefix), Some(suffix)) => {
                if same_text(msg.command.as_str(), "PRIVMSG") && msg.args.len() > 0 {
                    match IrcEndPoint::from_strings(msg.args[0].clone(), prefix.clone()) {
                        Ok(from) => Some(Event::Privmsg { from, content: suffix.clone() }),
                        Err(_) => None,
                    }
                } else if same_text(msg.command.as_str(), "JOIN") {
                    Some(Event::Joined { chan: suffix.clone() })
                } else {
                    None
                }
            },
            _ => None,
        };
        match event {
            Some(e) => Ok(e),
            None => Err(msg),
        }
    }
}

} // verus!
