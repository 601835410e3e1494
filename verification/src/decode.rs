//! Turning the bytes that the engine wrote into text and into JSON.

use vstd::prelude::*;
use vstd::string::*;
use vstd::utf8::{decode_utf8, valid_utf8};

verus! {

/// Output that is not text, or not the JSON it should be.
#[derive(Debug, Clone)]
pub enum DecodeError {
    /// The bytes are not UTF-8.
    InvalidUtf8,
    /// The text is not JSON; the field holds the parser's words.
    InvalidJson(String),
}

/// Mathematical content of [`DecodeError`].
pub enum DecodeErrorView {
    InvalidUtf8,
    InvalidJson(Seq<char>),
}

impl View for DecodeError {
    type V = DecodeErrorView;

    open spec fn view(&self) -> DecodeErrorView {
        match self {
            DecodeError::InvalidUtf8 => DecodeErrorView::InvalidUtf8,
            DecodeError::InvalidJson(m) => DecodeErrorView::InvalidJson(m@),
        }
    }
}

impl DecodeErrorView {
    /// The wording of [`DecodeError::message`].
    pub open spec fn message_spec(self) -> Seq<char> {
        match self {
            DecodeErrorView::InvalidUtf8 => "Invalid UTF-8"@,
            DecodeErrorView::InvalidJson(m) => "Failed to parse JSON: "@ + m,
        }
    }
}

impl DecodeError {
    /// A message for the caller.
    pub fn message(&self) -> (r: String)
        ensures
            r@ == self@.message_spec(),
    {
        match self {
            DecodeError::InvalidUtf8 => String::from_str("Invalid UTF-8"),
            DecodeError::InvalidJson(m) => {
                let mut text = String::from_str("Failed to parse JSON: ");
                text.append(m.as_str());
                text
            },
        }
    }
}

/// `String::from_utf8`: the string whose UTF-8 encoding the bytes are, or
/// nothing when the bytes are not UTF-8.
#[verifier::external_body]
fn string_from_utf8(bytes: Vec<u8>) -> (r: Option<String>)
    ensures
        r is Some <==> valid_utf8(bytes@),
        r matches Some(s) ==> s@ == decode_utf8(bytes@),
{
    String::from_utf8(bytes).ok()
}

/// The text that a run of bytes encodes.
pub open spec fn decode_text_spec(bytes: Seq<u8>) -> Result<Seq<char>, DecodeErrorView> {
    if valid_utf8(bytes) {
        Ok(decode_utf8(bytes))
    } else {
        Err(DecodeErrorView::InvalidUtf8)
    }
}

/// The outcome of decoding text, taken by its views.
pub open spec fn text_result_view(r: Result<String, DecodeError>) -> Result<
    Seq<char>,
    DecodeErrorView,
> {
    match r {
        Ok(s) => Ok(s@),
        Err(e) => Err(e@),
    }
}

/// Decodes bytes as UTF-8 text.
pub fn decode_text(bytes: Vec<u8>) -> (r: Result<String, DecodeError>)
    ensures
        text_result_view(r) == decode_text_spec(bytes@),
{
    match string_from_utf8(bytes) {
        Some(s) => Ok(s),
        None => Err(DecodeError::InvalidUtf8),
    }
}

/// `serde_json::Value`, carried through unread.
#[verifier::external_type_specification]
#[verifier::external_body]
pub struct ExJsonValue(serde_json::Value);

/// What `serde_json::from_str` makes of a text when it reads it as a JSON
/// value: the value, or the words of its error.
pub uninterp spec fn json_parse(text: Seq<char>) -> Result<serde_json::Value, Seq<char>>;

/// The outcome of a JSON parse with the words of the error taken by their
/// characters.
pub open spec fn parsed_json_view(r: Result<serde_json::Value, String>) -> Result<
    serde_json::Value,
    Seq<char>,
> {
    match r {
        Ok(v) => Ok(v),
        Err(m) => Err(m@),
    }
}

/// Calls `serde_json::from_str` for a `serde_json::Value`. The value is
/// handed on unread; an error is handed on as the text it displays.
/// Nothing is claimed about which texts are JSON or what value a text
/// denotes: the outcome is only given the name [`json_parse`].
#[verifier::external_body]
fn json_from_str(text: &str) -> (r: Result<serde_json::Value, String>)
    ensures
        parsed_json_view(r) == json_parse(text@),
{
    serde_json::from_str::<serde_json::Value>(text).map_err(|e| e.to_string())
}

/// What bytes decode to, given what the JSON parser makes of their text:
/// an error when they are not UTF-8 or the text is not JSON, the value of
/// the text otherwise.
pub open spec fn decode_json_spec(
    bytes: Seq<u8>,
    parsed: Result<serde_json::Value, Seq<char>>,
) -> Result<serde_json::Value, DecodeErrorView> {
    if !valid_utf8(bytes) {
        Err(DecodeErrorView::InvalidUtf8)
    } else {
        match parsed {
            Ok(v) => Ok(v),
            Err(m) => Err(DecodeErrorView::InvalidJson(m)),
        }
    }
}

/// The outcome of decoding JSON with the error taken by its view.
pub open spec fn json_result_view(r: Result<serde_json::Value, DecodeError>) -> Result<
    serde_json::Value,
    DecodeErrorView,
> {
    match r {
        Ok(v) => Ok(v),
        Err(e) => Err(e@),
    }
}

/// The outcome of decoding JSON from text, given what the JSON parser
/// made of the text.
pub fn json_outcome(parsed: Result<serde_json::Value, String>) -> (r: Result<
    serde_json::Value,
    DecodeError,
>)
    ensures
        json_result_view(r) == (match parsed_json_view(parsed) {
            Ok(v) => Ok::<serde_json::Value, DecodeErrorView>(v),
            Err(m) => Err(DecodeErrorView::InvalidJson(m)),
        }),
{
    match parsed {
        Ok(v) => Ok(v),
        Err(m) => Err(DecodeError::InvalidJson(m)),
    }
}

/// Decodes bytes as UTF-8 text and reads the text as a JSON value.
pub fn decode_json(bytes: Vec<u8>) -> (r: Result<serde_json::Value, DecodeError>)
    ensures
        json_result_view(r) == decode_json_spec(bytes@, json_parse(decode_utf8(bytes@))),
{
    match decode_text(bytes) {
        Err(e) => Err(e),
        Ok(text) => json_outcome(json_from_str(text.as_str())),
    }
}

/// Two decodings of the same bytes give the same value or the same error:
/// what `decode_json` returns is determined by the bytes alone.
pub proof fn lemma_json_is_determined(
    bytes: Seq<u8>,
    ra: Result<serde_json::Value, DecodeError>,
    rb: Result<serde_json::Value, DecodeError>,
)
    requires
        json_result_view(ra) == decode_json_spec(bytes, json_parse(decode_utf8(bytes))),
        json_result_view(rb) == decode_json_spec(bytes, json_parse(decode_utf8(bytes))),
    ensures
        json_result_view(ra) == json_result_view(rb),
{
}

} // verus!
