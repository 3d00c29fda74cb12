//! The errors of the bus.

use vstd::prelude::*;
use vstd::string::*;

verus! {

/// Why a payload is not the text of an event or of a command.
#[derive(Clone, Copy, Debug, PartialEq, Eq, Structural)]
pub enum DecodeFault {
    /// The payload holds more brackets or commas, a longer number or longer
    /// keys than the reader takes; it was not read.
    OverLimit,
    /// The payload is not a JSON text.
    Syntax,
    /// A variant was expected: a string, or an object with `variant` and `fields`.
    ExpectedStringOrObject,
    /// A string was expected where another kind of value stands.
    ExpectedString,
    /// The `fields` of a variant are not an array.
    ExpectedArray,
    /// An object that stands for a variant has no member `variant`.
    MissingVariant,
    /// An object that stands for a variant has no member `fields`.
    MissingFields,
    /// The variant's name is none of the type that is read.
    UnknownVariant,
    /// A field was expected and none is left.
    EndOfInput,
}

/// What went wrong in one operation of the bus.
#[derive(Clone, Debug, PartialEq, Eq)]
pub enum Error {
    /// A sender prefix with nothing before its first `!`; holds the prefix.
    MalformedInput(String),
    /// A rendezvous point could not be read or written; holds the transport's words.
    Transport(String),
    /// An event or a command could not be written as text.
    Serialization,
    /// A payload is not the text of an event or a command.
    Deserialization(DecodeFault),
    /// A plugin executable could not be started; holds the system's words.
    Spawn(String),
    /// A rendezvous point is occupied or cannot be bound; holds the transport's words.
    Bind(String),
}

/// An [`Error`] with its texts as sequences of characters.
pub enum ErrorView {
    MalformedInput(Seq<char>),
    Transport(Seq<char>),
    Serialization,
    Deserialization(DecodeFault),
    Spawn(Seq<char>),
    Bind(Seq<char>),
}

impl View for Error {
    type V = ErrorView;

    open spec fn view(&self) -> ErrorView {
        match self {
            Error::MalformedInput(s) => ErrorView::MalformedInput(s@),
            Error::Transport(s) => ErrorView::Transport(s@),
            Error::Serialization => ErrorView::Serialization,
            Error::Deserialization(f) => ErrorView::Deserialization(*f),
            Error::Spawn(s) => ErrorView::Spawn(s@),
            Error::Bind(s) => ErrorView::Bind(s@),
        }
    }
}

impl DecodeFault {
    /// The fault in words.
    pub open spec fn text(self) -> Seq<char> {
        match self {
            DecodeFault::OverLimit => "payload beyond the limits of the reader"@,
            DecodeFault::Syntax => "invalid JSON"@,
            DecodeFault::ExpectedStringOrObject => "expected a string or an object"@,
            DecodeFault::ExpectedString => "expected a string"@,
            DecodeFault::ExpectedArray => "expected an array"@,
            DecodeFault::MissingVariant => "missing field `variant`"@,
            DecodeFault::MissingFields => "missing field `fields`"@,
            DecodeFault::UnknownVariant => "unknown variant"@,
            DecodeFault::EndOfInput => "unexpected end of input"@,
        }
    }

    /// The fault in words.
    pub fn description(&self) -> (s: &'static str)
        ensures
            s@ == self.text(),
    {
        match self {
            DecodeFault::OverLimit => "payload beyond the limits of the reader",
            DecodeFault::Syntax => "invalid JSON",
            DecodeFault::ExpectedStringOrObject => "expected a string or an object",
            DecodeFault::ExpectedString => "expected a string",
            DecodeFault::ExpectedArray => "expected an array",
            DecodeFault::MissingVariant => "missing field `variant`",
            DecodeFault::MissingFields => "missing field `fields`",
            DecodeFault::UnknownVariant => "unknown variant",
            DecodeFault::EndOfInput => "unexpected end of input",
        }
    }
}

impl ErrorView {
    /// What the error says of itself, without the name of its kind.
    pub open spec fn detail(self) -> Seq<char> {
        match self {
            ErrorView::MalformedInput(s) => s,
            ErrorView::Transport(s) => s,
            ErrorView::Serialization => "value cannot be written as text"@,
            ErrorView::Deserialization(f) => f.text(),
            ErrorView::Spawn(s) => s,
            ErrorView::Bind(s) => s,
        }
    }

    /// The name of the error's kind, followed by a colon and a space.
    pub open spec fn label(self) -> Seq<char> {
        match self {
            ErrorView::MalformedInput(_) => "malformed input: "@,
            ErrorView::Transport(_) => "transport error: "@,
            ErrorView::Serialization => "serialization error: "@,
            ErrorView::Deserialization(_) => "deserialization error: "@,
            ErrorView::Spawn(_) => "spawn error: "@,
            ErrorView::Bind(_) => "bind error: "@,
        }
    }

    /// The line that is printed for the error.
    pub open spec fn text(self) -> Seq<char> {
        self.label() + self.detail()
    }
}

impl Error {
    /// What the error says of itself, without the name of its kind.
    pub fn description(&self) -> (s: &str)
        ensures
            s@ == self@.detail(),
    {
        match self {
            Error::MalformedInput(s) => s.as_str(),
            Error::Transport(s) => s.as_str(),
            Error::Serialization => "value cannot be written as text",
            Error::Deserialization(f) => f.description(),
            Error::Spawn(s) => s.as_str(),
            Error::Bind(s) => s.as_str(),
        }
    }

    /// The line that is printed for the error: its kind, then its description.
    pub fn message(&self) -> (s: String)
        ensures
            s@ == self@.text(),
    {
        let label = match self {
            Error::MalformedInput(_) => "malformed input: ",
            Error::Transport(_) => "transport error: ",
            Error::Serialization => "serialization error: ",
            Error::Deserialization(_) => "deserialization error: ",
            Error::Spawn(_) => "spawn error: ",
            Error::Bind(_) => "bind error: ",
        };
        let mut line = String::from_str(label);
        line.append(self.description());
        line
    }
}

} // verus!
