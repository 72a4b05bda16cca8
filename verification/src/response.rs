//! Reading the reply out of a response.

use vstd::prelude::*;
use crate::error::AskError;
use crate::json::{Json, JsonValue, parsed_json};

verus! {

/// The reply that a response document carries: the string at
/// `choices[0].message.content`. `None` where a key on that path is missing,
/// `choices` is empty or no array, or the content is no string.
pub open spec fn reply_text(doc: JsonValue) -> Option<Seq<char>> {
    match doc.member("choices"@) {
        Some(choices) => match choices.element(0) {
            Some(first) => match first.member("message"@) {
                Some(message) => match message.member("content"@) {
                    Some(content) => content.text(),
                    None => None,
                },
                None => None,
            },
            None => None,
        },
        None => None,
    }
}

/// What an invocation makes of a response body: the reply of the document
/// that the body parses to, or a format error.
pub open spec fn reply_of_body(parsed: Option<JsonValue>) -> Result<Seq<char>, AskError> {
    match parsed {
        Some(doc) => match reply_text(doc) {
            Some(text) => Ok(text),
            None => Err(AskError::ResponseFormat),
        },
        None => Err(AskError::ResponseFormat),
    }
}

/// The reply in `doc`, unchanged: not trimmed and not re-encoded.
pub fn extract_content(doc: &Json) -> (reply: Result<String, AskError>)
    ensures
        match reply {
            Ok(text) => reply_text(doc@) == Some(text@),
            Err(e) => e == AskError::ResponseFormat && reply_text(doc@) is None,
        },
{
    let choices = match doc.get_member("choices") {
        Some(choices) => choices,
        None => return Err(AskError::ResponseFormat),
    };
    let first = match choices.get_element(0) {
        Some(first) => first,
        None => return Err(AskError::ResponseFormat),
    };
    let message = match first.get_member("message") {
        Some(message) => message,
        None => return Err(AskError::ResponseFormat),
    };
    let content = match message.get_member("content") {
        Some(content) => content,
        None => return Err(AskError::ResponseFormat),
    };
    match content.as_text() {
        Some(text) => Ok(text.to_owned()),
        None => Err(AskError::ResponseFormat),
    }
}

/// Parses a response body and reads the reply out of it. A body that is not
/// JSON and a document without the reply both give a format error.
pub fn extract_reply(body: &[u8]) -> (reply: Result<String, AskError>)
    ensures
        match reply {
            Ok(text) => reply_of_body(parsed_json(body@)) == Ok::<Seq<char>, AskError>(text@),
            Err(e) => reply_of_body(parsed_json(body@)) == Err::<Seq<char>, AskError>(e),
        },
{
    match Json::parse(body) {
        Some(doc) => extract_content(&doc),
        None => Err(AskError::ResponseFormat),
    }
}

/// The plain response document that carries `reply`:
/// `{"choices":[{"message":{"content":reply}}]}`.
pub open spec fn completion(reply: Seq<char>) -> JsonValue {
    JsonValue::Object(
        seq![
            (
                "choices"@,
                JsonValue::Array(
                    seq![
                        JsonValue::Object(
                            seq![
                                (
                                    "message"@,
                                    JsonValue::Object(seq![("content"@, JsonValue::Text(reply))]),
                                ),
                            ],
                        ),
                    ],
                ),
            ),
        ],
    )
}

/// The reply of the plain response document is the string it was made
/// with, whatever that string holds.
pub proof fn lemma_completion_carries_reply(reply: Seq<char>)
    ensures
        reply_text(completion(reply)) == Some(reply),
        reply_of_body(Some(completion(reply))) == Ok::<Seq<char>, AskError>(reply),
{
    let content = JsonValue::Text(reply);
    let message = JsonValue::Object(seq![("content"@, content)]);
    let first = JsonValue::Object(seq![("message"@, message)]);
    let choices = JsonValue::Array(seq![first]);
    let doc = JsonValue::Object(seq![("choices"@, choices)]);
    assert(message.member("content"@) == Some(content));
    assert(first.member("message"@) == Some(message));
    assert(choices.element(0) == Some(first));
    assert(doc.member("choices"@) == Some(choices));
    assert(doc == completion(reply));
}

/// A document whose `choices` is an empty array holds no reply, whatever
/// else it holds.
pub proof fn lemma_no_choice_no_reply(doc: JsonValue)
    requires
        doc.member("choices"@) == Some(JsonValue::Array(Seq::empty())),
    ensures
        reply_text(doc) is None,
        reply_of_body(Some(doc)) == Err::<Seq<char>, AskError>(AskError::ResponseFormat),
{
}

/// A body that does not parse gives a format error.
pub proof fn lemma_unparsed_body_is_a_format_error()
    ensures
        reply_of_body(None) == Err::<Seq<char>, AskError>(AskError::ResponseFormat),
{
}

} // verus!
