//! The text of events and commands on the two channels.
//!
//! One payload is one JSON text. A variant without fields is its name as a
//! string; a variant with fields is an object with two members, `variant`
//! for the name and `fields` for the array of the fields in their order.

use crate::command::{Command, CommandView};
use crate::endpoint::{EndPointView, IrcEndPoint};
use crate::error::Error;
use crate::event::{Event, EventView};
use crate::json::{json_string_text, quote};
use crate::text::texts;
use vstd::prelude::*;
use vstd::string::*;

verus! {

/// The texts of a list, with a comma between each two.
pub open spec fn joined(fields: Seq<Seq<char>>) -> Seq<char>
    decreases fields.len(),
{
    if fields.len() == 0 {
        Seq::empty()
    } else if fields.len() == 1 {
        fields[0]
    } else {
        joined(fields.drop_last()) + ","@ + fields.last()
    }
}

/// The text of a variant, given its name and the texts of its fields.
pub open spec fn variant_text(name: Seq<char>, fields: Seq<Seq<char>>) -> Seq<char> {
    if fields.len() == 0 {
        "\""@ + name + "\""@
    } else {
        "{\"variant\":\""@ + name + "\",\"fields\":["@ + joined(fields) + "]}"@
    }
}

/// The text of an endpoint.
pub open spec fn endpoint_text(endpoint: EndPointView) -> Seq<char> {
    match endpoint {
        EndPointView::Chan(name) => variant_text("Chan"@, seq![json_string_text(name)]),
        EndPointView::User(name) => variant_text("User"@, seq![json_string_text(name)]),
    }
}

/// The payload of an event on the broadcast channel.
pub open spec fn event_text(event: EventView) -> Seq<char> {
    match event {
        EventView::Privmsg { from, content } => variant_text(
            "Privmsg"@,
            seq![endpoint_text(from), json_string_text(content)],
        ),
        EventView::Joined { chan } => variant_text("Joined"@, seq![json_string_text(chan)]),
    }
}

/// The payload of a command on the aggregation channel.
pub open spec fn command_text(command: CommandView) -> Seq<char> {
    match command {
        CommandView::Privmsg { to, content } => variant_text(
            "Privmsg"@,
            seq![endpoint_text(to), json_string_text(content)],
        ),
        CommandView::Join { chan } => variant_text("Join"@, seq![json_string_text(chan)]),
        CommandView::Part { chan } => variant_text("Part"@, seq![json_string_text(chan)]),
        CommandView::Reconnect => variant_text("Reconnect"@, Seq::empty()),
        CommandView::Exit => variant_text("Exit"@, Seq::empty()),
    }
}

/// Writes a variant: `name` is its name, written as it stands between double
/// quotes, and `fields` holds the text of each field, already written.
pub fn frame_variant(name: &str, fields: &Vec<String>) -> (out: String)
    ensures
        out@ == variant_text(name@, texts(fields@)),
{
    let ghost all = texts(fields@);
    if fields.len() == 0 {
        let mut out = String::from_str("\"");
        out.append(name);
        out.append("\"");
        return out;
    }
    let mut out = String::from_str("{\"variant\":\"");
    out.append(name);
    out.append("\",\"fields\":[");
    let ghost head = out@;
    let mut i: usize = 0;
    while i < fields.len()
        invariant
            i <= fields.len(),
            all == texts(fields@),
            out@ == head + joined(all.take(i as int)),
        decreases fields.len() - i,
    {
        proof {
            let next = all.take(i + 1);
            assert(next.drop_last() == all.take(i as int));
            assert(next.last() == fields@[i as int]@);
        }
        if i > 0 {
            out.append(",");
        }
        out.append(fields[i].as_str());
        i = i + 1;
    }
    proof {
        assert(all.take(i as int) == all);
    }
    out.append("]}");
    out
}

impl IrcEndPoint {
    /// The text of the endpoint, as it stands inside a payload. Every
    /// endpoint is written.
    pub fn encode(&self) -> (r: Result<String, Error>)
        ensures
            r matches Ok(text) && text@ == endpoint_text(self@),
    {
        let (tag, name) = match self {
            IrcEndPoint::Chan(name) => ("Chan", name),
            IrcEndPoint::User(name) => ("User", name),
        };
        match quote(name.as_str()) {
            Ok(quoted) => {
                let fields = vec![quoted];
                assert(texts(fields@) == seq![json_string_text(name@)]);
                Ok(frame_variant(tag, &fields))
            },
            Err(_) => Err(Error::Serialization),
        }
    }
}

/// Writes a variant with one field, a string.
fn frame_text_variant(tag: &str, field: &str) -> (r: Result<String, Error>)
    ensures
        r matches Ok(text) && text@ == variant_text(tag@, seq![json_string_text(field@)]),
{
    match quote(field) {
        Ok(quoted) => {
            let fields = vec![quoted];
            assert(texts(fields@) == seq![json_string_text(field@)]);
            Ok(frame_variant(tag, &fields))
        },
        Err(_) => Err(Error::Serialization),
    }
}

/// Writes a variant with two fields, an endpoint and a string.
fn frame_privmsg(endpoint: &IrcEndPoint, content: &str) -> (r: Result<String, Error>)
    ensures
        r matches Ok(text) && text@ == variant_text(
            "Privmsg"@,
            seq![endpoint_text(endpoint@), json_string_text(content@)],
        ),
{
    match endpoint.encode() {
        Ok(first) => match quote(content) {
            Ok(second) => {
                let fields = vec![first, second];
                assert(texts(fields@) == seq![
                    endpoint_text(endpoint@),
                    json_string_text(content@),
                ]);
                Ok(frame_variant("Privmsg", &fields))
            },
            Err(_) => Err(Error::Serialization),
        },
        Err(e) => Err(e),
    }
}

impl Event {
    /// The payload of the event on the broadcast channel. Every event is
    /// written.
    pub fn encode(&self) -> (r: Result<String, Error>)
        ensures
            r matches Ok(text) && text@ == event_text(self@),
    {
        match self {
            Event::Privmsg { from, content } => frame_privmsg(from, content.as_str()),
            Event::Joined { chan } => frame_text_variant("Joined", chan.as_str()),
        }
    }
}

impl Command {
    /// The payload of the command on the aggregation channel. Every command
    /// is written.
    pub fn encode(&self) -> (r: Result<String, Error>)
        ensures
            r matches Ok(text) && text@ == command_text(self@),
    {
        match self {
            Command::Privmsg { to, content } => frame_privmsg(to, content.as_str()),
            Command::Join { chan } => frame_text_variant("Join", chan.as_str()),
            Command::Part { chan } => frame_text_variant("Part", chan.as_str()),
            Command::Reconnect => {
                let fields: Vec<String> = Vec::new();
                assert(texts(fields@) == Seq::<Seq<char>>::empty());
                Ok(frame_variant("Reconnect", &fields))
            },
            Command::Exit => {
                let fields: Vec<String> = Vec::new();
                assert(texts(fields@) == Seq::<Seq<char>>::empty());
                Ok(frame_variant("Exit", &fields))
            },
        }
    }
}

} // verus!
