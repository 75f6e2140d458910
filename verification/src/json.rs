//! JSON on the wire: how a string is written into an outbound message, and
//! what is read out of an inbound one.
//!
//! Parsing and string encoding are done by `serde_json`. The items that call
//! it are marked as not verified; everything else in this file is proved from
//! what they state.

use crate::errors::{StreamError, StreamErrorView};
use vstd::prelude::*;

verus! {

#[verifier::external_type_specification]
#[verifier::external_body]
pub struct ExJsonValue(serde_json::Value);

#[verifier::external_type_specification]
#[verifier::external_body]
pub struct ExJsonError(serde_json::Error);

/// The lower-case hexadecimal digit for `d`.
pub open spec fn hex_char(d: int) -> char {
    if d == 0 {
        '0'
    } else if d == 1 {
        '1'
    } else if d == 2 {
        '2'
    } else if d == 3 {
        '3'
    } else if d == 4 {
        '4'
    } else if d == 5 {
        '5'
    } else if d == 6 {
        '6'
    } else if d == 7 {
        '7'
    } else if d == 8 {
        '8'
    } else if d == 9 {
        '9'
    } else if d == 10 {
        'a'
    } else if d == 11 {
        'b'
    } else if d == 12 {
        'c'
    } else if d == 13 {
        'd'
    } else if d == 14 {
        'e'
    } else {
        'f'
    }
}

/// How one character stands inside a JSON string: the quote, the backslash
/// and the control characters are escaped, every other character stands for
/// itself.
pub open spec fn escaped_char(c: char) -> Seq<char> {
    if c == '"' {
        seq!['\\', '"']
    } else if c == '\\' {
        seq!['\\', '\\']
    } else if c == '\u{8}' {
        seq!['\\', 'b']
    } else if c == '\t' {
        seq!['\\', 't']
    } else if c == '\n' {
        seq!['\\', 'n']
    } else if c == '\u{c}' {
        seq!['\\', 'f']
    } else if c == '\r' {
        seq!['\\', 'r']
    } else if (c as u32) < 0x20 {
        seq!['\\', 'u', '0', '0', hex_char((c as u32 as int) / 16), hex_char((c as u32 as int) % 16)]
    } else {
        seq![c]
    }
}

/// The characters of `s`, each as it stands inside a JSON string.
pub open spec fn escaped(s: Seq<char>) -> Seq<char>
    decreases s.len(),
{
    if s.len() == 0 {
        Seq::empty()
    } else {
        escaped(s.drop_last()) + escaped_char(s.last())
    }
}

/// The JSON string literal for `s`: its escaped characters between two
/// quotes.
pub open spec fn json_quoted(s: Seq<char>) -> Seq<char> {
    seq!['"'] + escaped(s) + seq!['"']
}

/// Calls `serde_json::to_string` on a string slice and claims that the result
/// is the literal described by [`json_quoted`]. Serialising a string into a
/// byte vector reports no error, so none is handed on.
#[verifier::external_body]
pub(crate) fn json_string(s: &str) -> (literal: String)
    ensures
        literal@ == json_quoted(s@),
{
    match serde_json::to_string(s) {
        Ok(literal) => literal,
        Err(_) => String::new(),
    }
}

/// What `serde_json` makes of a text. If it accepts the text as a JSON
/// document: the members of the document's top-level object whose values are
/// strings, by name (none if the document is not an object). If it refuses
/// the text: the message of its error.
pub uninterp spec fn json_reading(text: Seq<char>) -> Result<Map<Seq<char>, Seq<char>>, Seq<char>>;

/// The members of a parsed document's top-level object whose values are
/// strings, by name. Empty if the document is not an object.
pub uninterp spec fn text_members(value: serde_json::Value) -> Map<Seq<char>, Seq<char>>;

/// The message that a parse error displays.
pub uninterp spec fn error_message(error: serde_json::Error) -> Seq<char>;

/// Calls `serde_json::from_str` for a `Value`. Claims only that the outcome
/// is the one that [`json_reading`] names for this text.
#[verifier::external_body]
pub(crate) fn parse_json(text: &str) -> (parsed: Result<serde_json::Value, serde_json::Error>)
    ensures
        match parsed {
            Ok(value) => json_reading(text@) == Ok::<Map<Seq<char>, Seq<char>>, Seq<char>>(
                text_members(value),
            ),
            Err(error) => json_reading(text@) == Err::<Map<Seq<char>, Seq<char>>, Seq<char>>(
                error_message(error),
            ),
        },
{
    serde_json::from_str::<serde_json::Value>(text)
}

/// Calls `Value::get` with a name and `Value::as_str` on what it finds.
/// `get` finds a member only in an object and `as_str` gives a text only for
/// a string, so the answer is the entry of [`text_members`] under that name.
#[verifier::external_body]
pub(crate) fn member_text(value: &serde_json::Value, name: &str) -> (found: Option<String>)
    ensures
        found.deep_view() == member(text_members(*value), name@),
{
    match value.get(name) {
        Some(member) => match member.as_str() {
            Some(text) => Some(text.to_owned()),
            None => None,
        },
        None => None,
    }
}

/// Calls `to_string` on a parse error, which writes what the error displays.
#[verifier::external_body]
pub(crate) fn error_text(error: &serde_json::Error) -> (message: String)
    ensures
        message@ == error_message(*error),
{
    error.to_string()
}

/// The entry of `members` under `name`, if there is one.
pub open spec fn member(members: Map<Seq<char>, Seq<char>>, name: Seq<char>) -> Option<Seq<char>> {
    if members.contains_key(name) {
        Some(members[name])
    } else {
        None
    }
}

/// A decoded text frame: the text itself and the string members by which
/// frames are told apart.
#[derive(Debug, Clone, PartialEq, Eq)]
pub struct Payload {
    /// The frame as it was received.
    pub text: String,
    /// The stream that an update belongs to.
    pub topic: Option<String>,
    /// The operation that a reply answers or echoes.
    pub op: Option<String>,
    /// The server's remark on a request.
    pub ret_msg: Option<String>,
    /// The server's name for the connection.
    pub conn_id: Option<String>,
    /// The identifier of the request that a reply answers.
    pub req_id: Option<String>,
}

/// The mathematical value of a [`Payload`].
pub struct PayloadView {
    pub text: Seq<char>,
    pub topic: Option<Seq<char>>,
    pub op: Option<Seq<char>>,
    pub ret_msg: Option<Seq<char>>,
    pub conn_id: Option<Seq<char>>,
    pub req_id: Option<Seq<char>>,
}

impl View for Payload {
    type V = PayloadView;

    open spec fn view(&self) -> PayloadView {
        PayloadView {
            text: self.text@,
            topic: self.topic.deep_view(),
            op: self.op.deep_view(),
            ret_msg: self.ret_msg.deep_view(),
            conn_id: self.conn_id.deep_view(),
            req_id: self.req_id.deep_view(),
        }
    }
}

/// The payload of a frame `text` whose top-level string members are
/// `members`.
pub open spec fn payload_of(text: Seq<char>, members: Map<Seq<char>, Seq<char>>) -> PayloadView {
    PayloadView {
        text,
        topic: member(members, "topic"@),
        op: member(members, "op"@),
        ret_msg: member(members, "ret_msg"@),
        conn_id: member(members, "conn_id"@),
        req_id: member(members, "req_id"@),
    }
}

/// What decoding a frame gives: its payload, or the decode error with the
/// parser's message.
pub open spec fn decoded(text: Seq<char>) -> Result<PayloadView, StreamErrorView> {
    match json_reading(text) {
        Ok(members) => Ok(payload_of(text, members)),
        Err(message) => Err(StreamErrorView::Decode(message)),
    }
}

/// The frame, seen as a `Result` of views.
pub open spec fn decode_view(r: Result<Payload, StreamError>) -> Result<PayloadView, StreamErrorView> {
    match r {
        Ok(payload) => Ok(payload@),
        Err(error) => Err(error@),
    }
}

/// Decodes a text frame. A frame that is valid JSON gives its payload,
/// whatever its shape; any other frame gives `StreamError::Decode`.
pub fn decode(text: &str) -> (r: Result<Payload, StreamError>)
    ensures
        decode_view(r) == decoded(text@),
{
    match parse_json(text) {
        Ok(value) => Ok(
            Payload {
                text: text.to_owned(),
                topic: member_text(&value, "topic"),
                op: member_text(&value, "op"),
                ret_msg: member_text(&value, "ret_msg"),
                conn_id: member_text(&value, "conn_id"),
                req_id: member_text(&value, "req_id"),
            },
        ),
        Err(error) => Err(StreamError::Decode(error_text(&error))),
    }
}

} // verus!
