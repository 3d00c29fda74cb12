//! Sources and destinations of messages.

use crate::error::{Error, ErrorView};
use vstd::prelude::*;
use vstd::std_specs::iter::IteratorSpec;
use vstd::string::*;

verus! {

broadcast use vstd::string::group_string_axioms;

/// An IRC endpoint is either a channel or a user. It can be the source of a
/// message or its destination.
#[derive(Clone, Debug, PartialEq, Eq)]
pub enum IrcEndPoint {
    Chan(String),
    User(String),
}

/// An [`IrcEndPoint`] with its name as a sequence of characters.
pub enum EndPointView {
    Chan(Seq<char>),
    User(Seq<char>),
}

impl EndPointView {
    /// The bare name, without the mark of channel or user.
    pub open spec fn name(self) -> Seq<char> {
        match self {
            EndPointView::Chan(s) => s,
            EndPointView::User(s) => s,
        }
    }
}

impl View for IrcEndPoint {
    type V = EndPointView;

    open spec fn view(&self) -> EndPointView {
        match self {
            IrcEndPoint::Chan(s) => EndPointView::Chan(s@),
            IrcEndPoint::User(s) => EndPointView::User(s@),
        }
    }
}

/// A destination names a channel when it begins with `#`.
pub open spec fn is_channel_name(destination: Seq<char>) -> bool {
    destination.len() > 0 && destination[0] == '#'
}

/// The number of characters of a sender prefix that stand before its first
/// `!`; the whole length where it holds none.
pub open spec fn nick_len(prefix: Seq<char>) -> int {
    match prefix.index_of_first('!') {
        Some(i) => i,
        None => prefix.len() as int,
    }
}

/// The nickname in a sender prefix `nick!user@host`.
pub open spec fn nick_of(prefix: Seq<char>) -> Seq<char> {
    prefix.take(nick_len(prefix))
}

/// The endpoint that a message comes from, given the destination it was sent
/// to and the prefix of its sender: the channel, where the destination names
/// one, else the sending user. `None` where a user is asked for and the prefix
/// holds no nickname.
pub open spec fn parse_endpoint(destination: Seq<char>, prefix: Seq<char>) -> Option<EndPointView> {
    if is_channel_name(destination) {
        Some(EndPointView::Chan(destination))
    } else if nick_of(prefix).len() == 0 {
        None
    } else {
        Some(EndPointView::User(nick_of(prefix)))
    }
}

/// `nick_len` is the one position up to which a prefix holds no `!` and at
/// which it ends or holds one.
pub proof fn lemma_nick_len(prefix: Seq<char>, n: int)
    requires
        0 <= n <= prefix.len(),
        forall|j: int| 0 <= j < n ==> prefix[j] != '!',
        n < prefix.len() ==> prefix[n] == '!',
    ensures
        nick_len(prefix) == n,
{
    prefix.index_of_first_ensures('!');
    match prefix.index_of_first('!') {
        Some(i) => {
            if n < i {
                assert(prefix[n] == '!');
            } else if i < n {
                assert(prefix[i] != '!');
            }
        },
        None => {
            if n < prefix.len() {
                assert(prefix.contains('!'));
            }
        },
    }
}

/// A destination that names a channel is the endpoint, whoever sent the
/// message.
pub proof fn lemma_channel_whatever_the_sender(destination: Seq<char>, prefix: Seq<char>)
    requires
        is_channel_name(destination),
    ensures
        parse_endpoint(destination, prefix) == Some(EndPointView::Chan(destination)),
{
}

/// The number of characters before the first `!` of `s`.
fn count_before_bang(s: &str) -> (n: usize)
    ensures
        n == nick_len(s@),
        n <= s@.len(),
{
    let len = s.unicode_len();
    let mut n: usize = 0;
    let mut rest = s.chars();
    loop
        invariant_except_break
            rest.remaining() == s@.skip(n as int),
        invariant
            len == s@.len(),
            n <= len,
            forall|j: int| 0 <= j < n ==> s@[j] != '!',
        ensures
            n < len ==> s@[n as int] == '!',
        decreases len - n,
    {
        match rest.next() {
            Some(c) => {
                if c == '!' {
                    break;
                }
                n = n + 1;
            },
            None => {
                break;
            },
        }
    }
    proof {
        lemma_nick_len(s@, n as int);
    }
    n
}

impl IrcEndPoint {
    /// The bare name of the endpoint. The mark of channel or user is lost:
    /// a user named `#x` and the channel `#x` give the same string.
    pub fn as_str(&self) -> (s: &str)
        ensures
            s@ == self@.name(),
    {
        match self {
            IrcEndPoint::Chan(s) => s.as_str(),
            IrcEndPoint::User(s) => s.as_str(),
        }
    }

    /// The endpoint that a message comes from. `irc_arg` is the destination
    /// it was sent to and `prefix` the prefix of its sender. A destination
    /// with a leading `#` is a channel and is the endpoint. Any other is the
    /// receiving user, and the endpoint is the sender: what stands in `prefix`
    /// before its first `!`. A prefix with nothing there is refused.
    pub fn from_strings(irc_arg: String, prefix: String) -> (r: Result<IrcEndPoint, Error>)
        ensures
            match r {
                Ok(ep) => parse_endpoint(irc_arg@, prefix@) == Some(ep@),
                Err(e) => parse_endpoint(irc_arg@, prefix@) is None && e@
                    == ErrorView::MalformedInput(prefix@),
            },
    {
        let destination = irc_arg.as_str();
        if !destination.is_empty() && destination.get_char(0) == '#' {
            return Ok(IrcEndPoint::Chan(irc_arg));
        }
        let sender = prefix.as_str();
        let n = count_before_bang(sender);
        if n == 0 {
            return Err(Error::MalformedInput(prefix));
        }
        let nick = sender.substring_char(0, n);
        Ok(IrcEndPoint::User(nick.to_owned()))
    }
}

} // verus!
