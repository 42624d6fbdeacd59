//! Interpretation of the emoji endpoint's JSON reply.
//!
//! The endpoint answers with a JSON document of the shape
//! `{"ok": bool, "error"?: string}`.  Decoding goes through `serde_json`;
//! what the decoder hands back is reduced to plain values, and everything
//! after that point is verified.

use vstd::prelude::*;
use crate::errors::{ErrorKind, failure_message_spec, failure_message, success_message_spec,
    success_message};

verus! {

/// Whether `serde_json` accepts `s` as a JSON document.
pub uninterp spec fn json_parses(s: Seq<char>) -> bool;

/// The document's `"ok"` field, where the document parses and the field is a
/// boolean; `None` otherwise.
pub uninterp spec fn json_ok_flag(s: Seq<char>) -> Option<bool>;

/// The document's `"error"` field, where the document parses and the field is
/// a string; `None` otherwise.
pub uninterp spec fn json_error_field(s: Seq<char>) -> Option<Seq<char>>;

/// What the pipeline reads out of one decoded reply, as plain values.
#[derive(Clone, Debug)]
pub struct ReplySummary {
    /// The `"ok"` field, where it exists and is a boolean.
    pub ok_flag: Option<bool>,
    /// The `"error"` field, where it exists and is a string.
    pub error_field: Option<String>,
}

impl ReplySummary {
    /// The error field as a sequence of characters.
    pub open spec fn error_field_view(&self) -> Option<Seq<char>> {
        match self.error_field {
            Some(e) => Some(e@),
            None => None,
        }
    }
}

/// Relies on `serde_json::from_str::<serde_json::Value>`, which fails exactly
/// when the body is not a JSON document, and on `serde_json::Value::get`,
/// `Value::as_bool` and `Value::as_str`, which hand out the `"ok"` field as a
/// boolean and the `"error"` field as a string where the fields exist and
/// have those types.  All of them depend on the body text alone.
#[verifier::external_body]
fn decode_reply(body: &str) -> (r: Option<ReplySummary>)
    ensures
        r is Some <==> json_parses(body@),
        r matches Some(summary) ==> summary.ok_flag == json_ok_flag(body@)
            && summary.error_field_view() == json_error_field(body@),
{
    match serde_json::from_str::<serde_json::Value>(body) {
        Err(_) => None,
        Ok(v) => Some(ReplySummary {
            ok_flag: v.get("ok").and_then(serde_json::Value::as_bool),
            error_field: v.get("error").and_then(serde_json::Value::as_str).map(String::from),
        }),
    }
}

/// The message for a decoded reply.
///
/// A reply that did not decode, or decoded without a boolean `"ok"` field,
/// is a parse failure carrying the literal body as detail; `ok == true` is
/// success; `ok == false` is an endpoint failure carrying the reply's
/// `"error"` field, or an "unknown error" marker where that field is absent.
pub open spec fn decoded_message_spec(
    name: Seq<char>,
    body: Seq<char>,
    decoded: Option<ReplySummary>,
) -> Seq<char> {
    match decoded {
        None => failure_message_spec(ErrorKind::Parse, body),
        Some(summary) => match summary.ok_flag {
            Some(true) => success_message_spec(name),
            Some(false) => match summary.error_field_view() {
                Some(e) => failure_message_spec(ErrorKind::SlackApi, e),
                None => failure_message_spec(ErrorKind::SlackApi, "unknown error"@),
            },
            None => failure_message_spec(ErrorKind::Parse, body),
        },
    }
}

/// The message for a raw reply body, phrased over the decoder's behaviour.
pub open spec fn reply_message_spec(name: Seq<char>, body: Seq<char>) -> Seq<char> {
    if !json_parses(body) {
        failure_message_spec(ErrorKind::Parse, body)
    } else if json_ok_flag(body) == Some(true) {
        success_message_spec(name)
    } else if json_ok_flag(body) == Some(false) {
        match json_error_field(body) {
            Some(e) => failure_message_spec(ErrorKind::SlackApi, e),
            None => failure_message_spec(ErrorKind::SlackApi, "unknown error"@),
        }
    } else {
        failure_message_spec(ErrorKind::Parse, body)
    }
}

/// Builds the message for one decoded reply.
pub fn interpret_decoded(name: &str, body: &str, decoded: &Option<ReplySummary>) -> (m: String)
    ensures
        m@ == decoded_message_spec(name@, body@, *decoded),
{
    match decoded {
        None => failure_message(ErrorKind::Parse, body),
        Some(summary) => match summary.ok_flag {
            Some(true) => success_message(name),
            Some(false) => match &summary.error_field {
                Some(e) => failure_message(ErrorKind::SlackApi, e.as_str()),
                None => failure_message(ErrorKind::SlackApi, "unknown error"),
            },
            None => failure_message(ErrorKind::Parse, body),
        },
    }
}

/// Decodes the endpoint's reply body and builds the outcome message.
pub fn reply_message(name: &str, body: &str) -> (m: String)
    ensures
        m@ == reply_message_spec(name@, body@),
{
    let decoded = decode_reply(body);
    interpret_decoded(name, body, &decoded)
}

/// Interpretation is a pure function of the emoji name and the reply text:
/// equal replies always map to equal messages.
pub proof fn lemma_interpretation_deterministic(
    name1: Seq<char>,
    body1: Seq<char>,
    name2: Seq<char>,
    body2: Seq<char>,
)
    requires
        name1 == name2,
        body1 == body2,
    ensures
        reply_message_spec(name1, body1) == reply_message_spec(name2, body2),
{
}

/// The response body sent back over HTTP: the outcome message rendered as a
/// JSON string literal.
pub uninterp spec fn json_string_of(s: Seq<char>) -> Seq<char>;

/// Relies on `serde_json::to_string` on a `&str` value: it renders the string
/// as a JSON string literal, depends on the characters alone, and cannot fail
/// on a string.
#[verifier::external_body]
pub(crate) fn json_encode_string(s: &str) -> (r: String)
    ensures
        r@ == json_string_of(s@),
{
    match serde_json::to_string(s) {
        Ok(t) => t,
        Err(_) => String::new(),
    }
}

} // verus!
