use bender::{Event, IrcEndPoint, IrcMessage, IrcTag};

fn s(text: &str) -> String {
    text.to_string()
}

fn message(prefix: Option<&str>, command: &str, args: &[&str], suffix: Option<&str>) -> IrcMessage {
    IrcMessage {
        tags: None,
        prefix: prefix.map(s),
        command: s(command),
        args: args.iter().map(|a| s(a)).collect(),
        suffix: suffix.map(s),
    }
}

#[test]
fn privmsg_to_a_channel() {
    let msg = message(Some("nick!user@host"), "PRIVMSG", &["#sac"], Some("hello bot"));
    assert_eq!(
        Event::from_message(msg),
        Ok(Event::Privmsg { from: IrcEndPoint::Chan(s("#sac")), content: s("hello bot") })
    );
}

#[test]
fn privmsg_in_private() {
    let msg = message(Some("nick!user@host"), "PRIVMSG", &["bender"], Some("psst"));
    assert_eq!(
        Event::from_message(msg),
        Ok(Event::Privmsg { from: IrcEndPoint::User(s("nick")), content: s("psst") })
    );
}

#[test]
fn privmsg_source_is_what_from_strings_gives() {
    let cases = [
        ("#sac", "nick!user@host", "a"),
        ("bender", "nick!user@host", "b"),
        ("bender", "server.example", "c"),
        ("#", "!", "d"),
    ];
    for (dest, prefix, text) in cases {
        let msg = message(Some(prefix), "PRIVMSG", &[dest, "more"], Some(text));
        let from = IrcEndPoint::from_strings(s(dest), s(prefix)).unwrap();
        assert_eq!(Event::from_message(msg), Ok(Event::Privmsg { from, content: s(text) }));
    }
}

#[test]
fn privmsg_with_empty_text() {
    let msg = message(Some("nick!user@host"), "PRIVMSG", &["#sac"], Some(""));
    assert_eq!(
        Event::from_message(msg),
        Ok(Event::Privmsg { from: IrcEndPoint::Chan(s("#sac")), content: s("") })
    );
}

#[test]
fn join_is_joined() {
    let msg = message(Some("nick!user@host"), "JOIN", &[], Some("#sac"));
    assert_eq!(Event::from_message(msg), Ok(Event::Joined { chan: s("#sac") }));
}

#[test]
fn join_keeps_its_arguments_out() {
    let msg = message(Some("nick!user@host"), "JOIN", &["#other"], Some("#sac"));
    assert_eq!(Event::from_message(msg), Ok(Event::Joined { chan: s("#sac") }));
}

#[test]
fn message_without_prefix_comes_back() {
    let msg = message(None, "PRIVMSG", &["#sac"], Some("hello"));
    assert_eq!(Event::from_message(msg.clone()), Err(msg));
    let msg = message(None, "JOIN", &[], Some("#sac"));
    assert_eq!(Event::from_message(msg.clone()), Err(msg));
}

#[test]
fn message_without_trailing_text_comes_back() {
    let msg = message(Some("nick!user@host"), "PRIVMSG", &["#sac", "hello"], None);
    assert_eq!(Event::from_message(msg.clone()), Err(msg));
    let msg = message(Some("nick!user@host"), "JOIN", &["#sac"], None);
    assert_eq!(Event::from_message(msg.clone()), Err(msg));
}

#[test]
fn privmsg_without_destination_comes_back() {
    let msg = message(Some("nick!user@host"), "PRIVMSG", &[], Some("hello"));
    assert_eq!(Event::from_message(msg.clone()), Err(msg));
}

#[test]
fn privmsg_from_nobody_comes_back() {
    let msg = message(Some("!user@host"), "PRIVMSG", &["bender"], Some("hello"));
    assert_eq!(Event::from_message(msg.clone()), Err(msg));
}

#[test]
fn other_verbs_come_back() {
    for verb in ["PING", "NOTICE", "privmsg", "join", "PRIVMSG ", "", "001", "PART", "QUIT"] {
        let msg = message(Some("nick!user@host"), verb, &["#sac"], Some("text"));
        assert_eq!(Event::from_message(msg.clone()), Err(msg), "verb {:?}", verb);
    }
}

#[test]
fn unhandled_message_keeps_its_tags() {
    let msg = IrcMessage {
        tags: Some(vec![IrcTag(s("time"), Some(s("12:00"))), IrcTag(s("flag"), None)]),
        prefix: Some(s("nick!user@host")),
        command: s("TOPIC"),
        args: vec![s("#sac"), s("x")],
        suffix: Some(s("new topic")),
    };
    assert_eq!(Event::from_message(msg.clone()), Err(msg));
}
