//! Reading the transcript out of a transcription service's reply.
//!
//! A reply is a JSON value.  Services put the transcript in different
//! places: under `"text"`, under `"text"` inside `"output"`, or as the
//! `"output"` itself.  This module looks in those places in that order.

use vstd::prelude::*;

verus! {

/// `serde_json::Value`, a JSON value, carried as it is.
#[verifier::external_type_specification]
#[verifier::external_body]
pub struct ExValue(serde_json::Value);

/// `serde_json::Error`, carried as it is.
#[verifier::external_type_specification]
#[verifier::external_body]
pub struct ExError(serde_json::Error);

/// What `serde_json::Value::get` finds in `value` under the string `key`.
pub uninterp spec fn json_member(value: serde_json::Value, key: Seq<char>) -> Option<
    serde_json::Value,
>;

/// What `serde_json::Value::as_str` reads from `value`.
pub uninterp spec fn json_string(value: serde_json::Value) -> Option<Seq<char>>;

/// What `serde_json::to_string_pretty` renders `value` as, or `None` where it
/// reports an error.
pub uninterp spec fn json_pretty(value: serde_json::Value) -> Option<Seq<char>>;

/// Calls `serde_json::Value::get` with a string key.  Trusted: the result is
/// the same for the same value and key.  Nothing is claimed about which
/// values have which members.
#[verifier::external_body]
fn member<'a>(value: &'a serde_json::Value, key: &str) -> (found: Option<&'a serde_json::Value>)
    ensures
        found.is_some() == json_member(*value, key@).is_some(),
        found matches Some(inner) ==> json_member(*value, key@) == Some(*inner),
{
    value.get(key)
}

/// Calls `serde_json::Value::as_str`.  Trusted: the result is the same for
/// the same value.  Nothing is claimed about which values are strings.
#[verifier::external_body]
fn string_of<'a>(value: &'a serde_json::Value) -> (text: Option<&'a str>)
    ensures
        text.is_some() == json_string(*value).is_some(),
        text matches Some(found) ==> json_string(*value) == Some(found@),
{
    value.as_str()
}

/// Calls `serde_json::to_string_pretty`.  Trusted: the rendering, or the
/// failure to render, is the same for the same value.  Nothing is claimed
/// about what the rendering looks like or when it succeeds.
#[verifier::external_body]
fn pretty(value: &serde_json::Value) -> (rendered: Result<String, serde_json::Error>)
    ensures
        rendered.is_ok() == json_pretty(*value).is_some(),
        rendered matches Ok(text) ==> json_pretty(*value) == Some(text@),
{
    serde_json::to_string_pretty(value)
}

/// Why a reply yields no transcript.
#[derive(Debug, Clone, Copy, PartialEq, Eq)]
pub enum TranscriptError {
    /// The reply's output is neither text nor holds text, and could not be
    /// rendered as JSON either.
    Unprintable,
}

/// The texts that a reply's output offers.
#[derive(Debug, PartialEq, Eq)]
pub struct OutputTexts {
    /// The string under `"text"` in the output, if there is one.
    pub text: Option<String>,
    /// The output itself, if it is a string.
    pub literal: Option<String>,
}

/// Where a reply's transcript is.
#[derive(Debug, PartialEq, Eq)]
pub enum Transcript {
    /// The reply holds this text.
    Text(String),
    /// The reply holds output that is no text: its rendering as JSON stands
    /// in for a transcript.
    RenderOutput,
    /// The reply holds neither text nor output.
    Missing,
}

/// What stands in for the transcript of a reply that holds neither text nor
/// output.
pub open spec fn placeholder() -> Seq<char> {
    "(No transcription returned)"@
}

/// The place that a transcript is taken from, given what a reply holds: its
/// own text first, then the text inside its output, then its output as text,
/// then its output as it is.
pub open spec fn choice_of(text: Option<String>, output: Option<OutputTexts>) -> Transcript {
    match text {
        Some(found) => Transcript::Text(found),
        None => match output {
            None => Transcript::Missing,
            Some(texts) => match texts.text {
                Some(found) => Transcript::Text(found),
                None => match texts.literal {
                    Some(found) => Transcript::Text(found),
                    None => Transcript::RenderOutput,
                },
            },
        },
    }
}

/// The string under `key` in `value`, if `value` has a member there and it is
/// a string.
pub open spec fn json_string_at(value: serde_json::Value, key: Seq<char>) -> Option<Seq<char>> {
    match json_member(value, key) {
        Some(inner) => json_string(inner),
        None => None,
    }
}

/// The transcript of a reply, or `None` where its output would have to be
/// rendered and cannot be.
pub open spec fn transcript_of(reply: serde_json::Value) -> Option<Seq<char>> {
    match json_string_at(reply, "text"@) {
        Some(found) => Some(found),
        None => match json_member(reply, "output"@) {
            None => Some(placeholder()),
            Some(output) => match json_string_at(output, "text"@) {
                Some(found) => Some(found),
                None => match json_string(output) {
                    Some(found) => Some(found),
                    None => json_pretty(output),
                },
            },
        },
    }
}

/// Chooses where to take the transcript from.
pub fn choose_transcript(text: Option<String>, output: Option<OutputTexts>) -> (choice: Transcript)
    ensures
        choice == choice_of(text, output),
{
    match text {
        Some(found) => Transcript::Text(found),
        None => match output {
            None => Transcript::Missing,
            Some(texts) => match texts.text {
                Some(found) => Transcript::Text(found),
                None => match texts.literal {
                    Some(found) => Transcript::Text(found),
                    None => Transcript::RenderOutput,
                },
            },
        },
    }
}

/// Reads the string that `value` is.
fn own_string(value: &serde_json::Value) -> (text: Option<String>)
    ensures
        text.is_some() == json_string(*value).is_some(),
        text matches Some(copy) ==> json_string(*value) == Some(copy@),
{
    match string_of(value) {
        Some(found) => Some(found.to_string()),
        None => None,
    }
}

/// Reads the string under `key` in `value`.
fn string_at(value: &serde_json::Value, key: &str) -> (text: Option<String>)
    ensures
        text.is_some() == json_string_at(*value, key@).is_some(),
        text matches Some(copy) ==> json_string_at(*value, key@) == Some(copy@),
{
    match member(value, key) {
        Some(inner) => own_string(inner),
        None => None,
    }
}

/// Reads the transcript out of a reply.
pub fn extract_transcript(reply: &serde_json::Value) -> (outcome: Result<String, TranscriptError>)
    ensures
        outcome.is_ok() == transcript_of(*reply).is_some(),
        outcome matches Ok(text) ==> transcript_of(*reply) == Some(text@),
{
    let text: Option<String> = string_at(reply, "text");
    let output: Option<&serde_json::Value> = member(reply, "output");
    let texts: Option<OutputTexts> = match output {
        Some(inner) => Some(
            OutputTexts { text: string_at(inner, "text"), literal: own_string(inner) },
        ),
        None => None,
    };
    match choose_transcript(text, texts) {
        Transcript::Text(found) => Ok(found),
        Transcript::Missing => Ok("(No transcription returned)".to_string()),
        Transcript::RenderOutput => match pretty(output.unwrap()) {
            Ok(rendered) => Ok(rendered),
            Err(_) => Err(TranscriptError::Unprintable),
        },
    }
}

} // verus!
