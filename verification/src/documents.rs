//! The documents of events and commands, and the law that the reader takes
//! each of them for what it is.

use crate::command::CommandView;
use crate::decode::{
    command_of_document, event_of_document, member, read_endpoint, read_privmsg, read_string,
    read_variant,
};
use crate::endpoint::EndPointView;
use crate::error::DecodeFault;
use crate::event::EventView;
use crate::json::{JsonDoc, MemberDoc};
use vstd::prelude::*;

verus! {

/// The document of a variant: its name alone where it has no fields, else an
/// object with the name under `variant` and the fields under `fields`.
pub open spec fn variant_document(name: Seq<char>, fields: Seq<JsonDoc>) -> JsonDoc {
    if fields.len() == 0 {
        JsonDoc::String(name)
    } else {
        JsonDoc::Object(
            seq![
                MemberDoc { key: "variant"@, value: JsonDoc::String(name) },
                MemberDoc { key: "fields"@, value: JsonDoc::Array(fields) },
            ],
        )
    }
}

/// The document of an endpoint.
pub open spec fn endpoint_document(endpoint: EndPointView) -> JsonDoc {
    match endpoint {
        EndPointView::Chan(name) => variant_document("Chan"@, seq![JsonDoc::String(name)]),
        EndPointView::User(name) => variant_document("User"@, seq![JsonDoc::String(name)]),
    }
}

/// The document of an event.
pub open spec fn event_document(event: EventView) -> JsonDoc {
    match event {
        EventView::Privmsg { from, content } => variant_document(
            "Privmsg"@,
            seq![endpoint_document(from), JsonDoc::String(content)],
        ),
        EventView::Joined { chan } => variant_document("Joined"@, seq![JsonDoc::String(chan)]),
    }
}

/// The document of a command.
pub open spec fn command_document(command: CommandView) -> JsonDoc {
    match command {
        CommandView::Privmsg { to, content } => variant_document(
            "Privmsg"@,
            seq![endpoint_document(to), JsonDoc::String(content)],
        ),
        CommandView::Join { chan } => variant_document("Join"@, seq![JsonDoc::String(chan)]),
        CommandView::Part { chan } => variant_document("Part"@, seq![JsonDoc::String(chan)]),
        CommandView::Reconnect => variant_document("Reconnect"@, Seq::empty()),
        CommandView::Exit => variant_document("Exit"@, Seq::empty()),
    }
}

/// The names of the variants and of the two members are all different.
proof fn lemma_names_differ()
    ensures
        "variant"@ != "fields"@,
        "Chan"@ != "User"@,
        "Privmsg"@ != "Joined"@,
        "Privmsg"@ != "Join"@,
        "Privmsg"@ != "Part"@,
        "Privmsg"@ != "Reconnect"@,
        "Privmsg"@ != "Exit"@,
        "Join"@ != "Part"@,
        "Join"@ != "Reconnect"@,
        "Join"@ != "Exit"@,
        "Part"@ != "Reconnect"@,
        "Part"@ != "Exit"@,
        "Reconnect"@ != "Exit"@,
{
    reveal_strlit("variant");
    reveal_strlit("fields");
    reveal_strlit("Chan");
    reveal_strlit("User");
    reveal_strlit("Privmsg");
    reveal_strlit("Joined");
    reveal_strlit("Join");
    reveal_strlit("Part");
    reveal_strlit("Reconnect");
    reveal_strlit("Exit");
    assert("variant"@.len() != "fields"@.len());
    assert("Chan"@[0] != "User"@[0]);
    assert("Privmsg"@.len() == 7);
    assert("Joined"@.len() == 6);
    assert("Join"@.len() == 4);
    assert("Part"@.len() == 4);
    assert("Reconnect"@.len() == 9);
    assert("Exit"@.len() == 4);
    assert("Join"@[0] != "Part"@[0]);
    assert("Join"@[0] != "Exit"@[0]);
    assert("Part"@[0] != "Exit"@[0]);
}

/// Reading the head of a variant's document gives its name and puts its
/// fields on the stack, the first on top.
pub proof fn lemma_read_variant_document(stack: Seq<JsonDoc>, name: Seq<char>, fields: Seq<JsonDoc>)
    ensures
        read_variant(stack.push(variant_document(name, fields))) == Ok::<_, DecodeFault>(
            (name, stack + fields.reverse()),
        ),
{
    lemma_names_differ();
    let doc = variant_document(name, fields);
    let full = stack.push(doc);
    assert(full.last() == doc);
    assert(full.drop_last() == stack);
    if fields.len() == 0 {
        assert(fields.reverse() == Seq::<JsonDoc>::empty());
        assert(stack + fields.reverse() == stack);
    } else {
        let members = doc->Object_0;
        assert(members[0].key == "variant"@);
        assert(member(members, "variant"@) == Some(JsonDoc::String(name)));
        let rest = members.drop_first();
        assert(rest[0].key == "fields"@);
        assert(member(rest, "fields"@) == Some(JsonDoc::Array(fields)));
        assert(member(members, "fields"@) == Some(JsonDoc::Array(fields)));
    }
}

/// Reading the document of an endpoint gives the endpoint and leaves the
/// stack as it was below it.
pub proof fn lemma_read_endpoint_document(stack: Seq<JsonDoc>, endpoint: EndPointView)
    ensures
        read_endpoint(stack.push(endpoint_document(endpoint))) == Ok::<_, DecodeFault>(
            (endpoint, stack),
        ),
{
    lemma_names_differ();
    let name = endpoint.name();
    let fields = seq![JsonDoc::String(name)];
    let tag = match endpoint {
        EndPointView::Chan(_) => "Chan"@,
        EndPointView::User(_) => "User"@,
    };
    lemma_read_variant_document(stack, tag, fields);
    assert(fields.reverse() == fields);
    let after = stack + fields;
    assert(after.last() == JsonDoc::String(name));
    assert(after.drop_last() == stack);
    assert(read_string(after) == Ok::<_, DecodeFault>((name, stack)));
}

/// Reading the fields of a `Privmsg` gives its endpoint and its content.
proof fn lemma_read_privmsg_fields(endpoint: EndPointView, content: Seq<char>)
    ensures
        read_privmsg(
            Seq::<JsonDoc>::empty() + seq![
                endpoint_document(endpoint),
                JsonDoc::String(content),
            ].reverse(),
        ) == Ok::<_, DecodeFault>((endpoint, content)),
{
    let fields = seq![endpoint_document(endpoint), JsonDoc::String(content)];
    let below = seq![JsonDoc::String(content)];
    assert(Seq::<JsonDoc>::empty() + fields.reverse() == below.push(endpoint_document(endpoint)));
    lemma_read_endpoint_document(below, endpoint);
    assert(below.last() == JsonDoc::String(content));
}

/// Reading the fields of a variant with one string gives the string.
proof fn lemma_read_string_field(text: Seq<char>)
    ensures
        read_string(Seq::<JsonDoc>::empty() + seq![JsonDoc::String(text)].reverse()) matches Ok(
            (s, _),
        ) && s == text,
{
    let fields = seq![JsonDoc::String(text)];
    assert(Seq::<JsonDoc>::empty() + fields.reverse() == fields);
    assert(fields.last() == JsonDoc::String(text));
}

/// The document of an event is read as that event.
pub proof fn lemma_event_document_is_read_back(event: EventView)
    ensures
        event_of_document(event_document(event)) == Ok::<_, DecodeFault>(event),
{
    lemma_names_differ();
    let doc = event_document(event);
    assert(seq![doc] == Seq::<JsonDoc>::empty().push(doc));
    match event {
        EventView::Privmsg { from, content } => {
            lemma_read_variant_document(
                Seq::empty(),
                "Privmsg"@,
                seq![endpoint_document(from), JsonDoc::String(content)],
            );
            lemma_read_privmsg_fields(from, content);
        },
        EventView::Joined { chan } => {
            lemma_read_variant_document(Seq::empty(), "Joined"@, seq![JsonDoc::String(chan)]);
            lemma_read_string_field(chan);
        },
    }
}

/// The document of a command is read as that command.
pub proof fn lemma_command_document_is_read_back(command: CommandView)
    ensures
        command_of_document(command_document(command)) == Ok::<_, DecodeFault>(command),
{
    lemma_names_differ();
    let doc = command_document(command);
    assert(seq![doc] == Seq::<JsonDoc>::empty().push(doc));
    match command {
        CommandView::Privmsg { to, content } => {
            lemma_read_variant_document(
                Seq::empty(),
                "Privmsg"@,
                seq![endpoint_document(to), JsonDoc::String(content)],
            );
            lemma_read_privmsg_fields(to, content);
        },
        CommandView::Join { chan } => {
            lemma_read_variant_document(Seq::empty(), "Join"@, seq![JsonDoc::String(chan)]);
            lemma_read_string_field(chan);
        },
        CommandView::Part { chan } => {
            lemma_read_variant_document(Seq::empty(), "Part"@, seq![JsonDoc::String(chan)]);
            lemma_read_string_field(chan);
        },
        CommandView::Reconnect => {
            lemma_read_variant_document(Seq::empty(), "Reconnect"@, Seq::empty());
        },
        CommandView::Exit => {
            lemma_read_variant_document(Seq::empty(), "Exit"@, Seq::empty());
        },
    }
}

} // verus!
