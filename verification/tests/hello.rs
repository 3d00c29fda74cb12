use bender::hello::reply;
use bender::text::{chars_of, contains_text, same_text};
use bender::{Command, Event, IrcEndPoint};

fn s(text: &str) -> String {
    text.to_string()
}

fn said(from: IrcEndPoint, content: &str) -> Event {
    Event::Privmsg { from, content: s(content) }
}

#[test]
fn hello_is_answered_where_it_came_from() {
    let from = IrcEndPoint::Chan(s("#sac"));
    assert_eq!(
        reply(said(from.clone(), "hello bot")),
        Some(Command::Privmsg { to: from, content: s("world!") })
    );
    let from = IrcEndPoint::User(s("nick"));
    assert_eq!(
        reply(said(from.clone(), "oh, hello")),
        Some(Command::Privmsg { to: from, content: s("world!") })
    );
}

#[test]
fn hello_anywhere_in_the_message() {
    for content in ["hello", "hellohello", "xhellox", "say hello!", "hehello", "hellhello"] {
        assert!(reply(said(IrcEndPoint::User(s("n")), content)).is_some(), "content {:?}", content);
    }
}

#[test]
fn other_messages_are_not_answered() {
    for content in ["", "hell", "Hello", "HELLO", "h e l l o", "hell o", "helo", "olleh", "héllo"] {
        assert_eq!(reply(said(IrcEndPoint::User(s("n")), content)), None, "content {:?}", content);
    }
}

#[test]
fn joins_are_not_answered() {
    assert_eq!(reply(Event::Joined { chan: s("hello") }), None);
}

#[test]
fn contains_text_is_substring_search() {
    let texts = ["", "a", "ab", "aab", "abab", "ababc", "héllo wörld", "aaa", "✓✓a✓"];
    for text in texts {
        for word in texts {
            assert_eq!(contains_text(text, word), text.contains(word), "{:?} in {:?}", word, text);
        }
    }
}

#[test]
fn same_text_is_equality() {
    let texts = ["", "a", "ab", "ba", "abc", "abd", "é", "e", "PRIVMSG", "PRIVMSG "];
    for a in texts {
        for b in texts {
            assert_eq!(same_text(a, b), a == b, "{:?} and {:?}", a, b);
        }
    }
}

#[test]
fn chars_of_a_string() {
    assert_eq!(chars_of(""), Vec::<char>::new());
    assert_eq!(chars_of("a✓é"), vec!['a', '✓', 'é']);
}
