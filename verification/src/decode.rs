//! Reading events and commands back from a payload.
//!
//! A payload that the measure lets through is first parsed into a
//! document. The document is then read with a stack of the values still to
//! come, the next one on top: reading a variant takes the top value and,
//! where that is an object, puts its fields on the stack, the first on top;
//! reading a string takes the top value. What is left on the stack at the
//! end is not looked at.

use crate::command::{Command, CommandView};
use crate::endpoint::{EndPointView, IrcEndPoint};
use crate::error::{DecodeFault, Error, ErrorView};
use crate::event::{Event, EventView};
use crate::json::{document_of, json_parse, parse, JsonDoc, JsonMember, JsonValue, MemberDoc};
use crate::limits::{measure, unread_fault};
use crate::text::same_text;
use vstd::prelude::*;

verus! {

/// The value of the first member with the given key.
pub open spec fn member(members: Seq<MemberDoc>, key: Seq<char>) -> Option<JsonDoc>
    decreases members.len(),
{
    if members.len() == 0 {
        None
    } else if members[0].key == key {
        Some(members[0].value)
    } else {
        member(members.drop_first(), key)
    }
}

/// Takes a string from the stack.
pub open spec fn read_string(stack: Seq<JsonDoc>) -> Result<(Seq<char>, Seq<JsonDoc>), DecodeFault> {
    if stack.len() == 0 {
        Err(DecodeFault::EndOfInput)
    } else {
        match stack.last() {
            JsonDoc::String(s) => Ok((s, stack.drop_last())),
            _ => Err(DecodeFault::ExpectedString),
        }
    }
}

/// Takes the head of a variant from the stack and gives its name. A string is
/// a variant without fields. An object needs a string under `variant` and an
/// array under `fields`, and its fields go on the stack, the first on top.
pub open spec fn read_variant(stack: Seq<JsonDoc>) -> Result<(Seq<char>, Seq<JsonDoc>), DecodeFault> {
    if stack.len() == 0 {
        Err(DecodeFault::EndOfInput)
    } else {
        match stack.last() {
            JsonDoc::String(name) => Ok((name, stack.drop_last())),
            JsonDoc::Object(members) => match member(members, "variant"@) {
                None => Err(DecodeFault::MissingVariant),
                Some(JsonDoc::String(name)) => match member(members, "fields"@) {
                    None => Err(DecodeFault::MissingFields),
                    Some(JsonDoc::Array(fields)) => Ok((name, stack.drop_last() + fields.reverse())),
                    Some(_) => Err(DecodeFault::ExpectedArray),
                },
                Some(_) => Err(DecodeFault::ExpectedString),
            },
            _ => Err(DecodeFault::ExpectedStringOrObject),
        }
    }
}

/// Takes an endpoint from the stack.
pub open spec fn read_endpoint(stack: Seq<JsonDoc>) -> Result<(EndPointView, Seq<JsonDoc>), DecodeFault> {
    match read_variant(stack) {
        Err(fault) => Err(fault),
        Ok((tag, stack)) => if tag == "Chan"@ {
            match read_string(stack) {
                Err(fault) => Err(fault),
                Ok((name, stack)) => Ok((EndPointView::Chan(name), stack)),
            }
        } else if tag == "User"@ {
            match read_string(stack) {
                Err(fault) => Err(fault),
                Ok((name, stack)) => Ok((EndPointView::User(name), stack)),
            }
        } else {
            Err(DecodeFault::UnknownVariant)
        },
    }
}

/// Takes an endpoint and then a string from the stack.
pub open spec fn read_privmsg(stack: Seq<JsonDoc>) -> Result<(EndPointView, Seq<char>), DecodeFault> {
    match read_endpoint(stack) {
        Err(fault) => Err(fault),
        Ok((endpoint, stack)) => match read_string(stack) {
            Err(fault) => Err(fault),
            Ok((content, _)) => Ok((endpoint, content)),
        },
    }
}

/// The event that a document stands for, or why it stands for none.
pub open spec fn event_of_document(doc: JsonDoc) -> Result<EventView, DecodeFault> {
    match read_variant(seq![doc]) {
        Err(fault) => Err(fault),
        Ok((tag, stack)) => if tag == "Privmsg"@ {
            match read_privmsg(stack) {
                Err(fault) => Err(fault),
                Ok((from, content)) => Ok(EventView::Privmsg { from, content }),
            }
        } else if tag == "Joined"@ {
            match read_string(stack) {
                Err(fault) => Err(fault),
                Ok((chan, _)) => Ok(EventView::Joined { chan }),
            }
        } else {
            Err(DecodeFault::UnknownVariant)
        },
    }
}

/// The command that a document stands for, or why it stands for none.
pub open spec fn command_of_document(doc: JsonDoc) -> Result<CommandView, DecodeFault> {
    match read_variant(seq![doc]) {
        Err(fault) => Err(fault),
        Ok((tag, stack)) => if tag == "Privmsg"@ {
            match read_privmsg(stack) {
                Err(fault) => Err(fault),
                Ok((to, content)) => Ok(CommandView::Privmsg { to, content }),
            }
        } else if tag == "Join"@ {
            match read_string(stack) {
                Err(fault) => Err(fault),
                Ok((chan, _)) => Ok(CommandView::Join { chan }),
            }
        } else if tag == "Part"@ {
            match read_string(stack) {
                Err(fault) => Err(fault),
                Ok((chan, _)) => Ok(CommandView::Part { chan }),
            }
        } else if tag == "Reconnect"@ {
            Ok(CommandView::Reconnect)
        } else if tag == "Exit"@ {
            Ok(CommandView::Exit)
        } else {
            Err(DecodeFault::UnknownVariant)
        },
    }
}

/// The event that a payload stands for, or why it stands for none.
pub open spec fn event_of_text(text: Seq<char>) -> Result<EventView, DecodeFault> {
    match unread_fault(text) {
        Some(fault) => Err(fault),
        None => match json_parse(text) {
            None => Err(DecodeFault::Syntax),
            Some(doc) => event_of_document(doc),
        },
    }
}

/// The command that a payload stands for, or why it stands for none.
pub open spec fn command_of_text(text: Seq<char>) -> Result<CommandView, DecodeFault> {
    match unread_fault(text) {
        Some(fault) => Err(fault),
        None => match json_parse(text) {
            None => Err(DecodeFault::Syntax),
            Some(doc) => command_of_document(doc),
        },
    }
}

/// The documents of a stack of values.
pub open spec fn docs(stack: Seq<&JsonValue>) -> Seq<JsonDoc> {
    stack.map_values(|v: &JsonValue| v@)
}

/// The members of an object, as documents.
pub open spec fn member_docs(members: Seq<JsonMember>) -> Seq<MemberDoc> {
    members.map_values(|m: JsonMember| MemberDoc { key: m.key@, value: m.value@ })
}

/// The items of an array, as documents.
pub open spec fn item_docs(items: Seq<JsonValue>) -> Seq<JsonDoc> {
    items.map_values(|v: JsonValue| v@)
}

proof fn lemma_object_view(members: Vec<JsonMember>)
    ensures
        JsonValue::Object(members)@ == JsonDoc::Object(member_docs(members@)),
{
    reveal_with_fuel(<JsonValue as View>::view, 2);
    assert(JsonValue::Object(members)@->Object_0 =~= member_docs(members@));
}

proof fn lemma_array_view(items: Vec<JsonValue>)
    ensures
        JsonValue::Array(items)@ == JsonDoc::Array(item_docs(items@)),
{
    reveal_with_fuel(<JsonValue as View>::view, 2);
    assert(JsonValue::Array(items)@->Array_0 =~= item_docs(items@));
}

/// Finds the first member with the given key.
fn find_member<'a>(members: &'a Vec<JsonMember>, key: &str) -> (r: Option<&'a JsonValue>)
    ensures
        match r {
            Some(v) => member(member_docs(members@), key@) == Some(v@),
            None => member(member_docs(members@), key@) is None,
        },
{
    let ghost all = member_docs(members@);
    let mut i: usize = 0;
    proof {
        assert(all.skip(0) == all);
    }
    while i < members.len()
        invariant
            i <= members.len(),
            all == member_docs(members@),
            member(all, key@) == member(all.skip(i as int), key@),
        decreases members.len() - i,
    {
        if same_text(members[i].key.as_str(), key) {
            return Some(&members[i].value);
        }
        proof {
            assert(all.skip(i as int).drop_first() == all.skip(i + 1));
        }
        i = i + 1;
    }
    None
}

/// Takes a string from the stack.
fn pop_string<'a>(stack: &mut Vec<&'a JsonValue>) -> (r: Result<String, DecodeFault>)
    ensures
        match r {
            Ok(s) => read_string(docs(old(stack)@)) == Ok::<_, DecodeFault>(
                (s@, docs(final(stack)@)),
            ),
            Err(fault) => read_string(docs(old(stack)@)) == Err::<(Seq<char>, Seq<JsonDoc>), _>(
                fault,
            ),
        },
{
    match stack.pop() {
        None => Err(DecodeFault::EndOfInput),
        Some(top) => {
            proof {
                assert(docs(stack@) == docs(old(stack)@).drop_last());
            }
            match top {
                JsonValue::String(s) => Ok(s.clone()),
                _ => Err(DecodeFault::ExpectedString),
            }
        },
    }
}

/// Puts the items of an array on the stack, the first on top.
fn push_reversed<'a>(stack: &mut Vec<&'a JsonValue>, items: &'a Vec<JsonValue>)
    ensures
        docs(final(stack)@) == docs(old(stack)@) + item_docs(items@).reverse(),
{
    let ghost below = docs(stack@);
    let ghost rev = item_docs(items@).reverse();
    let mut i: usize = items.len();
    while i > 0
        invariant
            i <= items.len(),
            rev == item_docs(items@).reverse(),
            docs(stack@) == below + rev.take(items.len() - i),
        decreases i,
    {
        i = i - 1;
        let ghost before = stack@;
        stack.push(&items[i]);
        proof {
            assert(docs(stack@) == docs(before).push(items@[i as int]@));
            assert(rev.take(items.len() - i) == rev.take(items.len() - i - 1).push(
                items@[i as int]@,
            ));
        }
    }
    proof {
        assert(rev.take(items.len() as int) == rev);
    }
}

/// Takes the head of a variant from the stack and gives its name.
fn pop_variant<'a>(stack: &mut Vec<&'a JsonValue>) -> (r: Result<String, DecodeFault>)
    ensures
        match r {
            Ok(tag) => read_variant(docs(old(stack)@)) == Ok::<_, DecodeFault>(
                (tag@, docs(final(stack)@)),
            ),
            Err(fault) => read_variant(docs(old(stack)@)) == Err::<(Seq<char>, Seq<JsonDoc>), _>(
                fault,
            ),
        },
{
    match stack.pop() {
        None => Err(DecodeFault::EndOfInput),
        Some(top) => {
            proof {
                assert(docs(stack@) == docs(old(stack)@).drop_last());
            }
            match top {
                JsonValue::String(name) => Ok(name.clone()),
                JsonValue::Object(members) => {
                    proof {
                        lemma_object_view(*members);
                    }
                    match find_member(members, "variant") {
                        None => Err(DecodeFault::MissingVariant),
                        Some(JsonValue::String(name)) => match find_member(members, "fields") {
                            None => Err(DecodeFault::MissingFields),
                            Some(JsonValue::Array(fields)) => {
                                proof {
                                    lemma_array_view(*fields);
                                }
                                push_reversed(stack, fields);
                                Ok(name.clone())
                            },
                            Some(_) => Err(DecodeFault::ExpectedArray),
                        },
                        Some(_) => Err(DecodeFault::ExpectedString),
                    }
                },
                _ => Err(DecodeFault::ExpectedStringOrObject),
            }
        },
    }
}

/// Takes an endpoint from the stack.
fn pop_endpoint<'a>(stack: &mut Vec<&'a JsonValue>) -> (r: Result<IrcEndPoint, DecodeFault>)
    ensures
        match r {
            Ok(endpoint) => read_endpoint(docs(old(stack)@)) == Ok::<_, DecodeFault>(
                (endpoint@, docs(final(stack)@)),
            ),
            Err(fault) => read_endpoint(docs(old(stack)@)) == Err::<
                (EndPointView, Seq<JsonDoc>),
                _,
            >(fault),
        },
{
    let tag = match pop_variant(stack) {
        Ok(tag) => tag,
        Err(fault) => {
            return Err(fault);
        },
    };
    if same_text(tag.as_str(), "Chan") {
        match pop_string(stack) {
            Ok(name) => Ok(IrcEndPoint::Chan(name)),
            Err(fault) => Err(fault),
        }
    } else if same_text(tag.as_str(), "User") {
        match pop_string(stack) {
            Ok(name) => Ok(IrcEndPoint::User(name)),
            Err(fault) => Err(fault),
        }
    } else {
        Err(DecodeFault::UnknownVariant)
    }
}

/// Takes an endpoint and then a string from the stack.
fn pop_privmsg<'a>(stack: &mut Vec<&'a JsonValue>) -> (r: Result<(IrcEndPoint, String), DecodeFault>)
    ensures
        match r {
            Ok((endpoint, content)) => read_privmsg(docs(old(stack)@)) == Ok::<_, DecodeFault>(
                (endpoint@, content@),
            ),
            Err(fault) => read_privmsg(docs(old(stack)@)) == Err::<(EndPointView, Seq<char>), _>(
                fault,
            ),
        },
{
    let endpoint = match pop_endpoint(stack) {
        Ok(endpoint) => endpoint,
        Err(fault) => {
            return Err(fault);
        },
    };
    match pop_string(stack) {
        Ok(content) => Ok((endpoint, content)),
        Err(fault) => Err(fault),
    }
}

impl Event {
    /// Reads a document as an event.
    pub fn from_document(doc: &JsonValue) -> (r: Result<Event, DecodeFault>)
        ensures
            match r {
                Ok(event) => event_of_document(doc@) == Ok::<_, DecodeFault>(event@),
                Err(fault) => event_of_document(doc@) == Err::<EventView, _>(fault),
            },
    {
        let mut stack: Vec<&JsonValue> = Vec::new();
        stack.push(doc);
        proof {
            assert(docs(stack@) == seq![doc@]);
        }
        let tag = match pop_variant(&mut stack) {
            Ok(tag) => tag,
            Err(fault) => {
                return Err(fault);
            },
        };
        if same_text(tag.as_str(), "Privmsg") {
            match pop_privmsg(&mut stack) {
                Ok((from, content)) => Ok(Event::Privmsg { from, content }),
                Err(fault) => Err(fault),
            }
        } else if same_text(tag.as_str(), "Joined") {
            match pop_string(&mut stack) {
                Ok(chan) => Ok(Event::Joined { chan }),
                Err(fault) => Err(fault),
            }
        } else {
            Err(DecodeFault::UnknownVariant)
        }
    }

    /// Reads a payload of the broadcast channel. A payload is refused when
    /// the measure does not let it through, when it is no JSON text, or when
    /// its document is not that of an event.
    pub fn decode(text: &str) -> (r: Result<Event, Error>)
        ensures
            match r {
                Ok(event) => event_of_text(text@) == Ok::<_, DecodeFault>(event@),
                Err(e) => event_of_text(text@) is Err && e@ == ErrorView::Deserialization(
                    event_of_text(text@)->Err_0,
                ),
            },
    {
        match measure(text) {
            Some(fault) => {
                return Err(Error::Deserialization(fault));
            },
            None => {},
        }
        match parse(text) {
            Err(_) => Err(Error::Deserialization(DecodeFault::Syntax)),
            Ok(json) => {
                let doc = document_of(&json);
                match Event::from_document(&doc) {
                    Ok(event) => Ok(event),
                    Err(fault) => Err(Error::Deserialization(fault)),
                }
            },
        }
    }
}

impl Command {
    /// Reads a document as a command.
    pub fn from_document(doc: &JsonValue) -> (r: Result<Command, DecodeFault>)
        ensures
            match r {
                Ok(command) => command_of_document(doc@) == Ok::<_, DecodeFault>(command@),
                Err(fault) => command_of_document(doc@) == Err::<CommandView, _>(fault),
            },
    {
        let mut stack: Vec<&JsonValue> = Vec::new();
        stack.push(doc);
        proof {
            assert(docs(stack@) == seq![doc@]);
        }
        let tag = match pop_variant(&mut stack) {
            Ok(tag) => tag,
            Err(fault) => {
                return Err(fault);
            },
        };
        if same_text(tag.as_str(), "Privmsg") {
            match pop_privmsg(&mut stack) {
                Ok((to, content)) => Ok(Command::Privmsg { to, content }),
                Err(fault) => Err(fault),
            }
        } else if same_text(tag.as_str(), "Join") {
            match pop_string(&mut stack) {
                Ok(chan) => Ok(Command::Join { chan }),
                Err(fault) => Err(fault),
            }
        } else if same_text(tag.as_str(), "Part") {
            match pop_string(&mut stack) {
                Ok(chan) => Ok(Command::Part { chan }),
                Err(fault) => Err(fault),
            }
        } else if same_text(tag.as_str(), "Reconnect") {
            Ok(Command::Reconnect)
        } else if same_text(tag.as_str(), "Exit") {
            Ok(Command::Exit)
        } else {
            Err(DecodeFault::UnknownVariant)
        }
    }

    /// Reads a payload of the aggregation channel. A payload is refused when
    /// the measure does not let it through, when it is no JSON text, or when
    /// its document is not that of a command.
    pub fn decode(text: &str) -> (r: Result<Command, Error>)
        ensures
            match r {
                Ok(command) => command_of_text(text@) == Ok::<_, DecodeFault>(command@),
                Err(e) => command_of_text(text@) is Err && e@ == ErrorView::Deserialization(
                    command_of_text(text@)->Err_0,
                ),
            },
    {
        match measure(text) {
            Some(fault) => {
                return Err(Error::Deserialization(fault));
            },
            None => {},
        }
        match parse(text) {
            Err(_) => Err(Error::Deserialization(DecodeFault::Syntax)),
            Ok(json) => {
                let doc = document_of(&json);
                match Command::from_document(&doc) {
                    Ok(command) => Ok(command),
                    Err(fault) => Err(Error::Deserialization(fault)),
                }
            },
        }
    }
}

} // verus!
