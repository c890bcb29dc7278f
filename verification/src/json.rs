//! JSON text of the payloads. The framing is written here; the text of each
//! member is `serde_json`'s.

use vstd::prelude::*;
use crate::models::{
    ErrorResponse, ErrorResponseModel, Payload, PayloadModel, QuoteResponse, QuoteResponseModel,
};
use crate::text::{decimal_text, digit_char};

verus! {

/// An error of `serde_json`.
#[verifier::external_type_specification]
#[verifier::external_body]
pub struct ExJsonError(serde_json::Error);

/// A payload could not be written as JSON.
#[derive(Debug, Clone, Copy, PartialEq, Eq)]
pub struct EncodeError;

/// The character that stands for `d` in lower-case hexadecimal, for
/// `0 <= d <= 15`.
pub open spec fn hex_digit(d: int) -> char {
    if d < 10 {
        digit_char(d)
    } else {
        ((87 + d) as u8) as char
    }
}

/// How one character is written inside a JSON string. The double quote and
/// the backslash get a backslash in front; the control characters below
/// U+0020 are written by their short escape where JSON has one, else as
/// `\u00` and two hexadecimal digits; every other character stands as it is.
pub open spec fn json_escape(c: char) -> Seq<char> {
    if c == '"' {
        seq!['\\', '"']
    } else if c == '\\' {
        seq!['\\', '\\']
    } else if c == '\u{8}' {
        seq!['\\', 'b']
    } else if c == '\t' {
        seq!['\\', 't']
    } else if c == '\n' {
        seq!['\\', 'n']
    } else if c == '\u{c}' {
        seq!['\\', 'f']
    } else if c == '\r' {
        seq!['\\', 'r']
    } else if (c as u32) < 0x20 {
        seq!['\\', 'u', '0', '0', hex_digit(c as int / 16), hex_digit(c as int % 16)]
    } else {
        seq![c]
    }
}

/// The characters of `s`, each written as inside a JSON string.
pub open spec fn json_escaped(s: Seq<char>) -> Seq<char>
    decreases s.len(),
{
    if s.len() == 0 {
        Seq::<char>::empty()
    } else {
        json_escaped(s.drop_last()) + json_escape(s.last())
    }
}

/// The JSON text of a string: its characters, escaped, between double
/// quotes.
pub open spec fn json_string_text(s: Seq<char>) -> Seq<char> {
    seq!['"'] + json_escaped(s) + seq!['"']
}

/// A character that is written inside a JSON string as it is.
pub open spec fn is_plain(c: char) -> bool {
    c as u32 >= 0x20 && c != '"' && c != '\\'
}

/// A text of plain characters is written as it is, between double quotes.
pub proof fn plain_text_is_quoted_as_it_is(s: Seq<char>)
    requires
        forall|i: int| 0 <= i < s.len() ==> is_plain(#[trigger] s[i]),
    ensures
        json_escaped(s) == s,
        json_string_text(s) == seq!['"'] + s + seq!['"'],
    decreases s.len(),
{
    if s.len() > 0 {
        plain_text_is_quoted_as_it_is(s.drop_last());
        assert(is_plain(s.last()));
        assert(s.drop_last() + seq![s.last()] =~= s);
    } else {
        assert(json_escaped(s) =~= s);
    }
}

/// `serde_json::to_string` on a string slice. The contract claims that the
/// call succeeds and returns the JSON text of the string. The call fails
/// only where the value's `Serialize` fails or a map has a key that is no
/// string; a string slice is written into a byte vector, which takes every
/// write. The text is `serde_json`'s escape table, character by character.
#[verifier::external_body]
fn encode_string(s: &str) -> (written: Result<String, serde_json::Error>)
    ensures
        written is Ok,
        written matches Ok(text) ==> text@ == json_string_text(s@),
{
    serde_json::to_string(s)
}

/// `serde_json::to_string` on an `i64`. The contract claims that the call
/// succeeds, for the reason given for a string slice, and returns the number
/// in decimal, which is how `serde_json` writes every integer.
#[verifier::external_body]
fn encode_integer(n: i64) -> (written: Result<String, serde_json::Error>)
    ensures
        written is Ok,
        written matches Ok(text) ==> text@ == decimal_text(n as int),
{
    serde_json::to_string(&n)
}

/// What was written for a member: its text, or nothing where writing failed.
pub open spec fn text_of(written: Result<String, serde_json::Error>) -> Option<Seq<char>> {
    match written {
        Ok(text) => Some(text@),
        Err(_) => None,
    }
}

/// The object of a quote, framed around the texts of its three members:
/// `id`, `quote` and `source_url`, in that order and with nothing else.
pub open spec fn quote_frame(id: Seq<char>, quote: Seq<char>, source_url: Seq<char>) -> Seq<char> {
    "{\"id\":"@ + id + ",\"quote\":"@ + quote + ",\"source_url\":"@ + source_url + "}"@
}

/// The object of an error, framed around the text of its one member,
/// `error`.
pub open spec fn error_frame(error: Seq<char>) -> Seq<char> {
    "{\"error\":"@ + error + "}"@
}

/// The JSON object sent for a quote.
pub open spec fn quote_json(response: QuoteResponseModel) -> Seq<char> {
    quote_frame(
        decimal_text(response.id),
        json_string_text(response.quote),
        json_string_text(response.source_url),
    )
}

/// The JSON object sent for an error.
pub open spec fn error_json(response: ErrorResponseModel) -> Seq<char> {
    error_frame(json_string_text(response.error))
}

/// The JSON object sent for a payload.
pub open spec fn payload_json(payload: PayloadModel) -> Seq<char> {
    match payload {
        PayloadModel::Quote(response) => quote_json(response),
        PayloadModel::Error(response) => error_json(response),
    }
}

/// Frames the object of a quote around what was written for its members.
/// The object is there exactly when all three members were written.
pub fn quote_object(
    id: Result<String, serde_json::Error>,
    quote: Result<String, serde_json::Error>,
    source_url: Result<String, serde_json::Error>,
) -> (object: Result<String, EncodeError>)
    ensures
        match (text_of(id), text_of(quote), text_of(source_url)) {
            (Some(i), Some(q), Some(s)) => object matches Ok(text) && text@ == quote_frame(i, q, s),
            _ => object is Err,
        },
{
    match (id, quote, source_url) {
        (Ok(id), Ok(quote), Ok(source_url)) => {
            let mut text = String::from_str("{\"id\":");
            text.append(id.as_str());
            text.append(",\"quote\":");
            text.append(quote.as_str());
            text.append(",\"source_url\":");
            text.append(source_url.as_str());
            text.append("}");
            Ok(text)
        },
        _ => Err(EncodeError),
    }
}

/// Frames the object of an error around what was written for its message.
/// The object is there exactly when the message was written.
pub fn error_object(error: Result<String, serde_json::Error>) -> (object: Result<String, EncodeError>)
    ensures
        match text_of(error) {
            Some(e) => object matches Ok(text) && text@ == error_frame(e),
            None => object is Err,
        },
{
    match error {
        Ok(error) => {
            let mut text = String::from_str("{\"error\":");
            text.append(error.as_str());
            text.append("}");
            Ok(text)
        },
        Err(_) => Err(EncodeError),
    }
}

impl QuoteResponse {
    /// Renders the response as a JSON object. This always succeeds: an
    /// identifier and a string can always be written.
    pub fn to_json(&self) -> (object: Result<String, EncodeError>)
        ensures
            object matches Ok(text) && text@ == quote_json(self@),
    {
        quote_object(
            encode_integer(self.id),
            encode_string(self.quote.as_str()),
            encode_string(self.source_url.as_str()),
        )
    }
}

impl ErrorResponse {
    /// Renders the response as a JSON object. This always succeeds: a
    /// string can always be written.
    pub fn to_json(&self) -> (object: Result<String, EncodeError>)
        ensures
            object matches Ok(text) && text@ == error_json(self@),
    {
        error_object(encode_string(self.error.as_str()))
    }
}

impl Payload {
    /// Renders the payload as a JSON object. This always succeeds.
    pub fn to_json(&self) -> (object: Result<String, EncodeError>)
        ensures
            object matches Ok(text) && text@ == payload_json(self@),
    {
        match self {
            Payload::Quote(response) => response.to_json(),
            Payload::Error(response) => response.to_json(),
        }
    }
}

} // verus!
