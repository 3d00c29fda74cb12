//! The payloads that the reader hands to its parser.
//!
//! The JSON parser behind the reader calls itself once for each level of
//! nesting, counts an exponent and the items of an array in machine words,
//! keeps the keys it is inside of in a buffer that it indexes with sixteen
//! bits, and loses its place after a comma that stands before a closing
//! brace. A payload is therefore measured before it is parsed. One beyond
//! the limits is refused unread, and so is one with such a comma, which no
//! JSON text has. The limits are wide for the bus: a payload written here
//! has at most four brackets outside its strings, two short keys in each
//! object and no number; its strings may be as long as they like.

use crate::error::DecodeFault;
use vstd::prelude::*;
use vstd::std_specs::iter::IteratorSpec;
use vstd::string::*;

verus! {

broadcast use vstd::string::group_string_axioms;

/// The most opening brackets and braces outside the strings of a payload.
pub const MAX_OPENERS: usize = 64;

/// The most digits in a row outside the strings of a payload.
pub const MAX_DIGITS: usize = 18;

/// The most characters in the keys of a payload, all keys together, each
/// counted as it is written between its quotes.
pub const MAX_KEY_CHARS: usize = 16383;

/// The most commas outside the strings of a payload.
pub const MAX_COMMAS: usize = 0xFFFF_FFFE;

/// What has been seen of a text, read from its start.
pub struct Shape {
    /// The text has opened a string and not closed it.
    pub in_string: bool,
    /// Inside a string, the last character was a backslash that escapes the next.
    pub escaped: bool,
    /// The characters of the string that is open or was closed last, as long
    /// as nothing but blanks followed it.
    pub string_len: nat,
    /// Outside strings, a string was closed and only blanks followed.
    pub after_string: bool,
    /// Outside strings, a comma was met and only blanks followed.
    pub after_comma: bool,
    /// The opening brackets and braces met outside strings.
    pub openers: nat,
    /// The digits that end the text so far, outside strings.
    pub run: nat,
    /// The longest row of digits met outside strings.
    pub longest_run: nat,
    /// The characters of the strings that a colon followed.
    pub key_chars: nat,
    /// The commas met outside strings.
    pub commas: nat,
    /// A comma outside strings was followed, after blanks at most, by a
    /// closing brace.
    pub comma_before_brace: bool,
}

/// Whether a character is a decimal digit.
pub open spec fn is_digit(c: char) -> bool {
    '0' <= c && c <= '9'
}

/// Whether a character is one that may stand between the parts of a JSON text.
pub open spec fn is_blank(c: char) -> bool {
    c == ' ' || c == '\n' || c == '\t' || c == '\r'
}

/// The shape before anything is read.
pub open spec fn empty_shape() -> Shape {
    Shape {
        in_string: false,
        escaped: false,
        string_len: 0,
        after_string: false,
        after_comma: false,
        openers: 0,
        run: 0,
        longest_run: 0,
        key_chars: 0,
        commas: 0,
        comma_before_brace: false,
    }
}

/// The shape after one more character inside a string.
pub open spec fn shape_after_in_string(shape: Shape, c: char) -> Shape {
    if shape.escaped {
        Shape { escaped: false, string_len: shape.string_len + 1, ..shape }
    } else if c == '\\' {
        Shape { escaped: true, string_len: shape.string_len + 1, ..shape }
    } else if c == '"' {
        Shape { in_string: false, after_string: true, ..shape }
    } else {
        Shape { string_len: shape.string_len + 1, ..shape }
    }
}

/// The shape after one more character outside strings.
pub open spec fn shape_after_outside(shape: Shape, c: char) -> Shape {
    if is_blank(c) {
        Shape { run: 0, ..shape }
    } else {
        let plain = Shape { string_len: 0, after_string: false, after_comma: false, run: 0, ..shape };
        if c == '"' {
            Shape { in_string: true, ..plain }
        } else if c == ':' {
            Shape {
                key_chars: if shape.after_string {
                    shape.key_chars + shape.string_len
                } else {
                    shape.key_chars
                },
                ..plain
            }
        } else if c == ',' {
            Shape { commas: shape.commas + 1, after_comma: true, ..plain }
        } else if c == '}' {
            Shape { comma_before_brace: shape.comma_before_brace || shape.after_comma, ..plain }
        } else if c == '[' || c == '{' {
            Shape { openers: shape.openers + 1, ..plain }
        } else if is_digit(c) {
            Shape {
                run: shape.run + 1,
                longest_run: if shape.run + 1 > shape.longest_run {
                    shape.run + 1
                } else {
                    shape.longest_run
                },
                ..plain
            }
        } else {
            plain
        }
    }
}

/// The shape after one more character.
pub open spec fn shape_after(shape: Shape, c: char) -> Shape {
    if shape.in_string {
        shape_after_in_string(shape, c)
    } else {
        shape_after_outside(shape, c)
    }
}

/// The shape of a text.
pub open spec fn shape_of(text: Seq<char>) -> Shape
    decreases text.len(),
{
    if text.len() == 0 {
        empty_shape()
    } else {
        shape_after(shape_of(text.drop_last()), text.last())
    }
}

/// Whether a payload is within the limits of the reader.
pub open spec fn within_limits(text: Seq<char>) -> bool {
    &&& shape_of(text).openers <= MAX_OPENERS
    &&& shape_of(text).longest_run <= MAX_DIGITS
    &&& shape_of(text).key_chars <= MAX_KEY_CHARS
    &&& shape_of(text).commas <= MAX_COMMAS
}

/// Whether a payload holds, outside its strings, a comma that is followed by
/// a closing brace with blanks at most between them.
pub open spec fn comma_before_brace(text: Seq<char>) -> bool {
    shape_of(text).comma_before_brace
}

/// Why a payload is not handed to the parser, if it is not.
pub open spec fn unread_fault(text: Seq<char>) -> Option<DecodeFault> {
    if !within_limits(text) {
        Some(DecodeFault::OverLimit)
    } else if comma_before_brace(text) {
        Some(DecodeFault::Syntax)
    } else {
        None
    }
}

/// Measures a payload, and says why it is not handed to the parser, if it
/// is not.
pub fn measure(text: &str) -> (fault: Option<DecodeFault>)
    ensures
        fault == unread_fault(text@),
{
    let len = text.unicode_len();
    let mut in_string = false;
    let mut escaped = false;
    let mut string_len: usize = 0;
    let mut after_string = false;
    let mut after_comma = false;
    let mut openers: usize = 0;
    let mut run: usize = 0;
    let mut longest_run: usize = 0;
    let mut key_chars: usize = 0;
    let mut commas: usize = 0;
    let mut comma_brace = false;
    let mut n: usize = 0;
    let mut rest = text.chars();
    loop
        invariant_except_break
            rest.remaining() == text@.skip(n as int),
        invariant
            len == text@.len(),
            n <= len,
            openers <= n,
            run <= n,
            longest_run <= n,
            key_chars + string_len <= n,
            commas <= n,
            shape_of(text@.take(n as int)) == (Shape {
                in_string,
                escaped,
                string_len: string_len as nat,
                after_string,
                after_comma,
                openers: openers as nat,
                run: run as nat,
                longest_run: longest_run as nat,
                key_chars: key_chars as nat,
                commas: commas as nat,
                comma_before_brace: comma_brace,
            }),
        ensures
            n == len,
        decreases len - n,
    {
        let c = match rest.next() {
            Some(c) => c,
            None => {
                break;
            },
        };
        proof {
            let next = text@.take(n + 1);
            assert(next.drop_last() == text@.take(n as int));
            assert(next.last() == c);
        }
        if in_string {
            if escaped {
                escaped = false;
                string_len = string_len + 1;
            } else if c == '\\' {
                escaped = true;
                string_len = string_len + 1;
            } else if c == '"' {
                in_string = false;
                after_string = true;
            } else {
                string_len = string_len + 1;
            }
        } else if c == ' ' || c == '\n' || c == '\t' || c == '\r' {
            run = 0;
        } else {
            let was_after_string = after_string;
            let was_after_comma = after_comma;
            let last_len = string_len;
            let last_run = run;
            string_len = 0;
            after_string = false;
            after_comma = false;
            run = 0;
            if c == '"' {
                in_string = true;
            } else if c == ':' {
                if was_after_string {
                    key_chars = key_chars + last_len;
                }
            } else if c == ',' {
                commas = commas + 1;
                after_comma = true;
            } else if c == '}' {
                comma_brace = comma_brace || was_after_comma;
            } else if c == '[' || c == '{' {
                openers = openers + 1;
            } else if '0' <= c && c <= '9' {
                run = last_run + 1;
                if run > longest_run {
                    longest_run = run;
                }
            }
        }
        n = n + 1;
    }
    proof {
        assert(text@.take(n as int) == text@);
    }
    if openers > MAX_OPENERS || longest_run > MAX_DIGITS || key_chars > MAX_KEY_CHARS || commas
        > MAX_COMMAS {
        Some(DecodeFault::OverLimit)
    } else if comma_brace {
        Some(DecodeFault::Syntax)
    } else {
        None
    }
}

} // verus!
