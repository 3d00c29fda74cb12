//! Raw protocol messages, as the session hands them over.

use crate::text::{optional_text, texts};
use vstd::prelude::*;

verus! {

/// A message tag: its key and, where it has one, its value.
#[derive(Clone, Debug, PartialEq, Eq)]
pub struct IrcTag(pub String, pub Option<String>);

/// One message of the protocol, cut into its parts and not yet interpreted.
#[derive(Clone, Debug, PartialEq, Eq)]
pub struct IrcMessage {
    /// The tags in front of the message, where it has any.
    pub tags: Option<Vec<IrcTag>>,
    /// Who sent it: `nick!user@host` or the name of a server.
    pub prefix: Option<String>,
    /// The verb, such as `PRIVMSG`.
    pub command: String,
    /// The positional arguments.
    pub args: Vec<String>,
    /// The trailing text, after the ` :`.
    pub suffix: Option<String>,
}

/// An [`IrcTag`] with its texts as sequences of characters.
pub struct TagView {
    pub key: Seq<char>,
    pub value: Option<Seq<char>>,
}

/// An [`IrcMessage`] with its texts as sequences of characters.
pub struct MessageView {
    pub tags: Option<Seq<TagView>>,
    pub prefix: Option<Seq<char>>,
    pub command: Seq<char>,
    pub args: Seq<Seq<char>>,
    pub suffix: Option<Seq<char>>,
}

impl View for IrcTag {
    type V = TagView;

    open spec fn view(&self) -> TagView {
        TagView { key: self.0@, value: optional_text(self.1) }
    }
}

impl View for IrcMessage {
    type V = MessageView;

    open spec fn view(&self) -> MessageView {
        MessageView {
            tags: match self.tags {
                Some(tags) => Some(tags@.map_values(|t: IrcTag| t@)),
                None => None,
            },
            prefix: optional_text(self.prefix),
            command: self.command@,
            args: texts(self.args@),
            suffix: optional_text(self.suffix),
        }
    }
}

} // verus!
