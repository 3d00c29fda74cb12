//! JSON documents, and the two places where a JSON text is written or read.

use crate::limits::unread_fault;
use rustc_serialize::json::{EncoderError, Json, ParserError};
use vstd::prelude::*;

verus! {

/// A JSON document.
#[derive(Debug, PartialEq, Eq)]
pub enum JsonValue {
    Null,
    Boolean(bool),
    I64(i64),
    U64(u64),
    /// A number with a fraction or an exponent. Nothing on the bus reads one,
    /// so its value is not kept.
    Float,
    String(String),
    Array(Vec<JsonValue>),
    /// The members of an object, each a key and a value.
    Object(Vec<JsonMember>),
}

/// One member of a JSON object.
#[derive(Debug, PartialEq, Eq)]
pub struct JsonMember {
    pub key: String,
    pub value: JsonValue,
}

/// A [`JsonValue`] as a mathematical tree.
pub enum JsonDoc {
    Null,
    Boolean(bool),
    I64(i64),
    U64(u64),
    Float,
    String(Seq<char>),
    Array(Seq<JsonDoc>),
    Object(Seq<MemberDoc>),
}

/// A [`JsonMember`] as a mathematical value.
pub struct MemberDoc {
    pub key: Seq<char>,
    pub value: JsonDoc,
}

impl View for JsonValue {
    type V = JsonDoc;

    open spec fn view(&self) -> JsonDoc
        decreases self,
    {
        match self {
            JsonValue::Null => JsonDoc::Null,
            JsonValue::Boolean(b) => JsonDoc::Boolean(*b),
            JsonValue::I64(n) => JsonDoc::I64(*n),
            JsonValue::U64(n) => JsonDoc::U64(*n),
            JsonValue::Float => JsonDoc::Float,
            JsonValue::String(s) => JsonDoc::String(s@),
            JsonValue::Array(items) => JsonDoc::Array(
                Seq::new(
                    items@.len(),
                    |i: int|
                        if 0 <= i < items@.len() {
                            items@[i]@
                        } else {
                            JsonDoc::Null
                        },
                ),
            ),
            JsonValue::Object(members) => JsonDoc::Object(
                Seq::new(
                    members@.len(),
                    |i: int|
                        if 0 <= i < members@.len() {
                            MemberDoc { key: members@[i].key@, value: members@[i].value@ }
                        } else {
                            MemberDoc { key: Seq::empty(), value: JsonDoc::Null }
                        },
                ),
            ),
        }
    }
}

/// `rustc_serialize::json::Json`, a parsed JSON value. Nothing is known of
/// what is inside one but through `json_tree`.
#[verifier::external_type_specification]
#[verifier::external_body]
pub struct ExJson(Json);

/// `rustc_serialize::json::ParserError`, why a text is no JSON.
#[verifier::external_type_specification]
#[verifier::external_body]
pub struct ExParserError(ParserError);

/// `rustc_serialize::json::EncoderError`, why a value was not written.
#[verifier::external_type_specification]
#[verifier::external_body]
pub struct ExEncoderError(EncoderError);

/// The JSON text that `rustc_serialize` writes for a string: the string
/// between double quotes, with its quotes, backslashes and control characters
/// escaped.
pub uninterp spec fn json_string_text(s: Seq<char>) -> Seq<char>;

/// The document that `rustc_serialize` reads from a text; `None` for a text
/// that it refuses.
pub uninterp spec fn json_parse(text: Seq<char>) -> Option<JsonDoc>;

/// The tree that a `rustc_serialize` value holds.
pub uninterp spec fn json_tree(json: Json) -> JsonDoc;

/// `rustc_serialize::json::encode` on a string. The call writes into a
/// `String`, which takes every write, so it succeeds; the result is the JSON
/// text of the string.
#[verifier::external_body]
pub(crate) fn quote(s: &str) -> (r: Result<String, EncoderError>)
    ensures
        r is Ok,
        r matches Ok(t) ==> t@ == json_string_text(s@),
{
    rustc_serialize::json::encode(&s)
}

/// `rustc_serialize::json::Json::from_str`. The value that comes back holds
/// the document of the text; an error comes back for the texts that have none.
/// The text has to be one that the measure lets through: on others the
/// parser may run out of stack or of the range of a counter, or lose its
/// place and stop the program.
#[verifier::external_body]
pub(crate) fn parse(text: &str) -> (r: Result<Json, ParserError>)
    requires
        unread_fault(text@) is None,
    ensures
        match r {
            Ok(json) => json_parse(text@) == Some(json_tree(json)),
            Err(_) => json_parse(text@) is None,
        },
{
    Json::from_str(text)
}

/// Copies a `rustc_serialize` value into a [`JsonValue`], variant by variant.
/// The members of an object come in the order of their keys.
#[verifier::external_body]
pub(crate) fn document_of(json: &Json) -> (doc: JsonValue)
    ensures
        doc@ == json_tree(*json),
{
    match json {
        Json::Null => JsonValue::Null,
        Json::Boolean(b) => JsonValue::Boolean(*b),
        Json::I64(n) => JsonValue::I64(*n),
        Json::U64(n) => JsonValue::U64(*n),
        Json::F64(_) => JsonValue::Float,
        Json::String(s) => JsonValue::String(s.clone()),
        Json::Array(items) => JsonValue::Array(items.iter().map(document_of).collect()),
        Json::Object(members) => JsonValue::Object(
            members.iter().map(|(k, v)| JsonMember { key: k.clone(), value: document_of(v) }).collect(),
        ),
    }
}

} // verus!
