use bender::{frame_variant, Command, DecodeFault, Error, Event, IrcEndPoint, JsonMember, JsonValue};

fn s(text: &str) -> String {
    text.to_string()
}

fn refused(fault: DecodeFault) -> Error {
    Error::Deserialization(fault)
}

#[test]
fn frame_of_a_variant_without_fields() {
    assert_eq!(frame_variant("Exit", &vec![]), "\"Exit\"");
    assert_eq!(frame_variant("", &vec![]), "\"\"");
}

#[test]
fn frame_of_a_variant_with_fields() {
    assert_eq!(frame_variant("Join", &vec![s("\"#a\"")]), r##"{"variant":"Join","fields":["#a"]}"##);
    assert_eq!(frame_variant("V", &vec![s("1"), s("2")]), r#"{"variant":"V","fields":[1,2]}"#);
    assert_eq!(
        frame_variant("V", &vec![s("1"), s("[2]"), s("null")]),
        r#"{"variant":"V","fields":[1,[2],null]}"#
    );
    assert_eq!(frame_variant("V", &vec![s("")]), r#"{"variant":"V","fields":[]}"#);
}

#[test]
fn text_of_an_endpoint() {
    assert_eq!(
        IrcEndPoint::Chan(s("#sac")).encode(),
        Ok(s(r##"{"variant":"Chan","fields":["#sac"]}"##))
    );
    assert_eq!(
        IrcEndPoint::User(s("bob")).encode(),
        Ok(s(r#"{"variant":"User","fields":["bob"]}"#))
    );
}

#[test]
fn text_of_a_privmsg_event() {
    let event = Event::Privmsg { from: IrcEndPoint::Chan(s("#sac")), content: s("hello bot") };
    assert_eq!(
        event.encode(),
        Ok(s(
            r##"{"variant":"Privmsg","fields":[{"variant":"Chan","fields":["#sac"]},"hello bot"]}"##
        ))
    );
}

#[test]
fn text_of_a_joined_event() {
    let event = Event::Joined { chan: s("#sac") };
    assert_eq!(event.encode(), Ok(s(r##"{"variant":"Joined","fields":["#sac"]}"##)));
}

#[test]
fn text_of_each_command() {
    let privmsg = Command::Privmsg { to: IrcEndPoint::User(s("bob")), content: s("hi") };
    assert_eq!(
        privmsg.encode(),
        Ok(s(r#"{"variant":"Privmsg","fields":[{"variant":"User","fields":["bob"]},"hi"]}"#))
    );
    assert_eq!(
        Command::Join { chan: s("#a") }.encode(),
        Ok(s(r##"{"variant":"Join","fields":["#a"]}"##))
    );
    assert_eq!(
        Command::Part { chan: s("#a") }.encode(),
        Ok(s(r##"{"variant":"Part","fields":["#a"]}"##))
    );
    assert_eq!(Command::Reconnect.encode(), Ok(s("\"Reconnect\"")));
    assert_eq!(Command::Exit.encode(), Ok(s("\"Exit\"")));
}

#[test]
fn strings_are_quoted_and_escaped() {
    let event = Event::Joined { chan: s("a\"b\\c\nd\te\u{1}f\u{7f}gé") };
    assert_eq!(
        event.encode(),
        Ok(s("{\"variant\":\"Joined\",\"fields\":[\"a\\\"b\\\\c\\nd\\te\\u0001f\\u007fgé\"]}"))
    );
    let event = Event::Joined { chan: s("") };
    assert_eq!(event.encode(), Ok(s(r#"{"variant":"Joined","fields":[""]}"#)));
}

#[test]
fn payload_of_each_command_is_read_back() {
    let commands = [
        Command::Privmsg { to: IrcEndPoint::Chan(s("#sac")), content: s("world") },
        Command::Privmsg { to: IrcEndPoint::User(s("bob")), content: s("") },
        Command::Privmsg { to: IrcEndPoint::User(s("a\"b")), content: s("x\\y\n\u{0}z ✓") },
        Command::Join { chan: s("#sac") },
        Command::Part { chan: s("#sac") },
        Command::Reconnect,
        Command::Exit,
    ];
    for command in commands {
        let text = command.encode().unwrap();
        assert_eq!(Command::decode(&text), Ok(command), "payload {}", text);
    }
}

#[test]
fn payload_of_each_event_is_read_back() {
    let events = [
        Event::Privmsg { from: IrcEndPoint::Chan(s("#sac")), content: s("hello bot") },
        Event::Privmsg { from: IrcEndPoint::User(s("nick")), content: s("{\"variant\":1}") },
        Event::Joined { chan: s("#sac") },
        Event::Joined { chan: s("") },
    ];
    for event in events {
        let text = event.encode().unwrap();
        assert_eq!(Event::decode(&text), Ok(event), "payload {}", text);
    }
}

#[test]
fn commands_are_read() {
    assert_eq!(Command::decode("\"Exit\""), Ok(Command::Exit));
    assert_eq!(Command::decode("\"Reconnect\""), Ok(Command::Reconnect));
    assert_eq!(
        Command::decode(r##"{"variant":"Join","fields":["#sac"]}"##),
        Ok(Command::Join { chan: s("#sac") })
    );
    assert_eq!(
        Command::decode(r##"{"variant":"Part","fields":["#sac"]}"##),
        Ok(Command::Part { chan: s("#sac") })
    );
    assert_eq!(
        Command::decode(
            r##"{"variant":"Privmsg","fields":[{"variant":"Chan","fields":["#sac"]},"world"]}"##
        ),
        Ok(Command::Privmsg { to: IrcEndPoint::Chan(s("#sac")), content: s("world") })
    );
}

#[test]
fn spaces_and_member_order_do_not_matter() {
    assert_eq!(
        Command::decode(" { \"fields\" : [ \"#sac\" ] ,\n \"variant\" : \"Join\" } "),
        Ok(Command::Join { chan: s("#sac") })
    );
    assert_eq!(
        Command::decode(r##"{"extra":1,"variant":"Join","fields":["#sac"],"more":[]}"##),
        Ok(Command::Join { chan: s("#sac") })
    );
}

#[test]
fn escapes_are_read() {
    assert_eq!(
        Command::decode(r#"{"variant":"Join","fields":["a\"b\\c\nd\u00e9\ud83d\ude00"]}"#),
        Ok(Command::Join { chan: s("a\"b\\c\ndé😀") })
    );
}

#[test]
fn a_variant_without_fields_may_be_an_object() {
    assert_eq!(Command::decode(r#"{"variant":"Exit","fields":[]}"#), Ok(Command::Exit));
    assert_eq!(Command::decode(r#"{"variant":"Exit","fields":[1,2]}"#), Ok(Command::Exit));
}

#[test]
fn fields_beyond_the_last_are_not_looked_at() {
    assert_eq!(
        Command::decode(r##"{"variant":"Join","fields":["#sac",17,null]}"##),
        Ok(Command::Join { chan: s("#sac") })
    );
}

#[test]
fn what_an_endpoint_leaves_is_read_next() {
    // The endpoint has one field too many; it stays on top of the stack and
    // is taken for the content.
    assert_eq!(
        Command::decode(
            r##"{"variant":"Privmsg","fields":[{"variant":"Chan","fields":["#sac","left"]},"world"]}"##
        ),
        Ok(Command::Privmsg { to: IrcEndPoint::Chan(s("#sac")), content: s("left") })
    );
    // An endpoint written as a bare name takes the field after it for its own.
    assert_eq!(
        Command::decode(r##"{"variant":"Privmsg","fields":["Chan","#sac","world"]}"##),
        Ok(Command::Privmsg { to: IrcEndPoint::Chan(s("#sac")), content: s("world") })
    );
}

#[test]
fn text_that_is_no_json_is_refused() {
    for text in ["", " ", "{", "Exit", "\"Exit", "{\"variant\":\"Exit\",}", "\"Exit\" x", "[1,]"] {
        assert_eq!(Command::decode(text), Err(refused(DecodeFault::Syntax)), "payload {:?}", text);
        assert_eq!(Event::decode(text), Err(refused(DecodeFault::Syntax)), "payload {:?}", text);
    }
}

#[test]
fn a_value_that_is_no_variant_is_refused() {
    for text in ["1", "-1", "1.5", "true", "null", "[]", "[\"Exit\"]"] {
        assert_eq!(
            Command::decode(text),
            Err(refused(DecodeFault::ExpectedStringOrObject)),
            "payload {:?}",
            text
        );
        assert_eq!(
            Event::decode(text),
            Err(refused(DecodeFault::ExpectedStringOrObject)),
            "payload {:?}",
            text
        );
    }
}

#[test]
fn an_object_without_variant_is_refused() {
    assert_eq!(Command::decode("{}"), Err(refused(DecodeFault::MissingVariant)));
    assert_eq!(Command::decode(r#"{"fields":[]}"#), Err(refused(DecodeFault::MissingVariant)));
    assert_eq!(Command::decode(r#"{"Variant":"Exit"}"#), Err(refused(DecodeFault::MissingVariant)));
}

#[test]
fn a_variant_that_is_no_string_is_refused() {
    assert_eq!(
        Command::decode(r#"{"variant":1,"fields":[]}"#),
        Err(refused(DecodeFault::ExpectedString))
    );
    assert_eq!(Command::decode(r#"{"variant":["Exit"]}"#), Err(refused(DecodeFault::ExpectedString)));
}

#[test]
fn an_object_without_fields_is_refused() {
    assert_eq!(Command::decode(r#"{"variant":"Exit"}"#), Err(refused(DecodeFault::MissingFields)));
    assert_eq!(
        Command::decode(r#"{"variant":"Nothing"}"#),
        Err(refused(DecodeFault::MissingFields))
    );
}

#[test]
fn fields_that_are_no_array_are_refused() {
    assert_eq!(
        Command::decode(r##"{"variant":"Join","fields":"#sac"}"##),
        Err(refused(DecodeFault::ExpectedArray))
    );
    assert_eq!(
        Command::decode(r#"{"variant":"Join","fields":{}}"#),
        Err(refused(DecodeFault::ExpectedArray))
    );
}

#[test]
fn an_unknown_variant_is_refused() {
    assert_eq!(Command::decode("\"Quit\""), Err(refused(DecodeFault::UnknownVariant)));
    assert_eq!(Command::decode("\"exit\""), Err(refused(DecodeFault::UnknownVariant)));
    assert_eq!(Command::decode("\"\""), Err(refused(DecodeFault::UnknownVariant)));
    assert_eq!(
        Command::decode(r##"{"variant":"Joined","fields":["#sac"]}"##),
        Err(refused(DecodeFault::UnknownVariant))
    );
    assert_eq!(
        Event::decode(r##"{"variant":"Join","fields":["#sac"]}"##),
        Err(refused(DecodeFault::UnknownVariant))
    );
    assert_eq!(
        Command::decode(
            r##"{"variant":"Privmsg","fields":[{"variant":"Channel","fields":["#sac"]},"x"]}"##
        ),
        Err(refused(DecodeFault::UnknownVariant))
    );
}

#[test]
fn a_missing_field_is_refused() {
    assert_eq!(Command::decode("\"Join\""), Err(refused(DecodeFault::EndOfInput)));
    assert_eq!(
        Command::decode(r#"{"variant":"Join","fields":[]}"#),
        Err(refused(DecodeFault::EndOfInput))
    );
    assert_eq!(Command::decode("\"Privmsg\""), Err(refused(DecodeFault::EndOfInput)));
    assert_eq!(
        Command::decode(r##"{"variant":"Privmsg","fields":[{"variant":"Chan","fields":["#sac"]}]}"##),
        Err(refused(DecodeFault::EndOfInput))
    );
    // The endpoint takes the content for its name, and nothing is left for
    // the content.
    assert_eq!(
        Command::decode(r##"{"variant":"Privmsg","fields":[{"variant":"Chan","fields":[]},"x"]}"##),
        Err(refused(DecodeFault::EndOfInput))
    );
}

#[test]
fn a_field_of_another_kind_is_refused() {
    assert_eq!(
        Command::decode(r#"{"variant":"Join","fields":[1]}"#),
        Err(refused(DecodeFault::ExpectedString))
    );
    assert_eq!(
        Command::decode(r##"{"variant":"Privmsg","fields":[{"variant":"Chan","fields":["#sac"]},null]}"##),
        Err(refused(DecodeFault::ExpectedString))
    );
    assert_eq!(
        Command::decode(r##"{"variant":"Privmsg","fields":[7,"x"]}"##),
        Err(refused(DecodeFault::ExpectedStringOrObject))
    );
}

#[test]
fn events_are_read() {
    assert_eq!(
        Event::decode(r##"{"variant":"Joined","fields":["#sac"]}"##),
        Ok(Event::Joined { chan: s("#sac") })
    );
    assert_eq!(
        Event::decode(
            r##"{"variant":"Privmsg","fields":[{"variant":"User","fields":["nick"]},"psst"]}"##
        ),
        Ok(Event::Privmsg { from: IrcEndPoint::User(s("nick")), content: s("psst") })
    );
    assert_eq!(Event::decode("\"Joined\""), Err(refused(DecodeFault::EndOfInput)));
}

#[test]
fn documents_are_read_without_a_text() {
    let doc = JsonValue::Object(vec![
        JsonMember { key: s("variant"), value: JsonValue::String(s("Join")) },
        JsonMember { key: s("fields"), value: JsonValue::Array(vec![JsonValue::String(s("#a"))]) },
    ]);
    assert_eq!(Command::from_document(&doc), Ok(Command::Join { chan: s("#a") }));
    assert_eq!(Event::from_document(&doc), Err(DecodeFault::UnknownVariant));
    assert_eq!(Command::from_document(&JsonValue::String(s("Exit"))), Ok(Command::Exit));
    assert_eq!(Command::from_document(&JsonValue::Null), Err(DecodeFault::ExpectedStringOrObject));
    assert_eq!(Command::from_document(&JsonValue::Float), Err(DecodeFault::ExpectedStringOrObject));
    assert_eq!(Command::from_document(&JsonValue::I64(-1)), Err(DecodeFault::ExpectedStringOrObject));
    assert_eq!(Command::from_document(&JsonValue::U64(1)), Err(DecodeFault::ExpectedStringOrObject));
    assert_eq!(
        Command::from_document(&JsonValue::Boolean(true)),
        Err(DecodeFault::ExpectedStringOrObject)
    );
}

#[test]
fn the_first_member_of_a_name_counts() {
    let doc = JsonValue::Object(vec![
        JsonMember { key: s("variant"), value: JsonValue::String(s("Exit")) },
        JsonMember { key: s("variant"), value: JsonValue::String(s("Reconnect")) },
        JsonMember { key: s("fields"), value: JsonValue::Array(vec![]) },
        JsonMember { key: s("fields"), value: JsonValue::Null },
    ]);
    assert_eq!(Command::from_document(&doc), Ok(Command::Exit));
}
