//! The course of one invocation: what to do first, and what to make of the
//! response. The library decides; whoever runs it sends the request and
//! hands back what came.

use vstd::prelude::*;
use crate::ask::{OpenaiAskBuilder, OpenaiAskView, request_of};
use crate::config::{Configuration, ConfigurationView, Settings, SettingsView, joined, resolved};
use crate::error::AskError;
use crate::json::{JsonValue, parsed_json};
use crate::message::{conversation, conversation_of};
use crate::response::{extract_reply, reply_of_body, reply_text};
use crate::transport::{HttpRequest, HttpRequestView};

verus! {

/// What is printed where the user gave no input.
pub const GREETING: &'static str = "May I help you?";

/// What an invocation does first.
#[derive(Debug, PartialEq, Eq)]
pub enum Step {
    /// Print [`GREETING`] and end with success. Nothing is sent.
    Greet,
    /// Send this request, once, and hand the response to [`finish`].
    Send(HttpRequest),
}

/// A step as mathematics sees it.
pub enum StepView {
    Greet,
    Send(HttpRequestView),
}

impl View for Step {
    type V = StepView;

    open spec fn view(&self) -> StepView {
        match self {
            Step::Greet => StepView::Greet,
            Step::Send(request) => StepView::Send(request@),
        }
    }
}

/// The question that a configuration asks: its system prompt and the user's
/// input as the two messages, the system's first.
pub open spec fn question_of(config: ConfigurationView) -> OpenaiAskView {
    OpenaiAskView {
        api_key: config.api_key,
        model: config.model,
        prompt: config.system_prompt,
        temp: config.temperature,
        max_tokens: config.max_tokens,
        messages: conversation_of(config.system_prompt, config.user_input),
    }
}

/// The first step of an invocation: the greeting where the user's input is
/// empty, and the request of its question where it is not.
pub open spec fn first_step(config: ConfigurationView) -> StepView {
    if config.user_input.len() == 0 {
        StepView::Greet
    } else {
        StepView::Send(request_of(question_of(config)))
    }
}

/// What came of sending the request: `None` where it could not be delivered
/// or no response came in time, else what the response body parses to.
pub type Exchange = Option<Option<JsonValue>>;

/// What an invocation makes of the exchange: the reply, a transport error
/// where there was no response, and a format error where the response holds
/// no reply.
pub open spec fn finished(exchange: Exchange) -> Result<Seq<char>, AskError> {
    match exchange {
        None => Err(AskError::Transport),
        Some(parsed) => reply_of_body(parsed),
    }
}

/// What an invocation ends with: `Ok` with the exact text that it prints
/// before it ends with success, or the error that it ends with, having
/// printed nothing. The exchange is looked at only where a request is sent.
pub open spec fn outcome(settings: SettingsView, exchange: Exchange) -> Result<Seq<char>, AskError> {
    match resolved(settings) {
        Err(e) => Err(e),
        Ok(config) => match first_step(config) {
            StepView::Greet => Ok(GREETING@),
            StepView::Send(_) => finished(exchange),
        },
    }
}

/// The exchange that a response stands for.
pub open spec fn exchange_of(response: Option<&[u8]>) -> Exchange {
    match response {
        None => None,
        Some(body) => Some(parsed_json(body@)),
    }
}

/// The text of [`GREETING`], for printing.
pub fn greeting() -> (text: String)
    ensures
        text@ == GREETING@,
{
    GREETING.to_owned()
}

/// Decides the first step of an invocation.
pub fn begin(config: Configuration) -> (step: Step)
    ensures
        step@ == first_step(config@),
{
    if config.user_input.as_str().is_empty() {
        return Step::Greet;
    }
    let messages = conversation(config.system_prompt.clone(), config.user_input);
    let ask = OpenaiAskBuilder::new(
        config.api_key,
        config.model,
        config.system_prompt,
        config.temperature,
        config.max_tokens,
        messages,
    );
    assert(ask@ == question_of(config@));
    Step::Send(ask.into_request())
}

/// Decides how an invocation ends once its request was sent. `response` is
/// the whole body of the response, or `None` where the request could not be
/// delivered or no response came in time. The status of the response plays
/// no part.
pub fn finish(response: Option<&[u8]>) -> (reply: Result<String, AskError>)
    ensures
        match reply {
            Ok(text) => finished(exchange_of(response)) == Ok::<Seq<char>, AskError>(text@),
            Err(e) => finished(exchange_of(response)) == Err::<Seq<char>, AskError>(e),
        },
{
    match response {
        None => Err(AskError::Transport),
        Some(body) => extract_reply(body),
    }
}

/// Plays an invocation through against a response that is already at hand:
/// the settings are resolved, the first step is decided, and where it sends
/// a request, `response` is taken for what came back.
pub fn replay(settings: Settings, response: Option<&[u8]>) -> (end: Result<String, AskError>)
    ensures
        match end {
            Ok(text) => outcome(settings@, exchange_of(response)) == Ok::<Seq<char>, AskError>(
                text@,
            ),
            Err(e) => outcome(settings@, exchange_of(response)) == Err::<Seq<char>, AskError>(e),
        },
{
    let config = match settings.resolve() {
        Ok(config) => config,
        Err(e) => return Err(e),
    };
    match begin(config) {
        Step::Greet => Ok(greeting()),
        Step::Send(_) => finish(response),
    }
}

/// Where a key was given and the joined input is empty, the invocation
/// prints exactly the greeting and ends with success; its first step is to
/// greet, so no request exists that could be sent, and the outcome is the
/// same whatever the network would have done.
pub proof fn lemma_empty_input_is_greeted(settings: SettingsView, exchange: Exchange)
    requires
        settings.key.flag is Some || settings.key.env is Some,
        joined(settings.input).len() == 0,
    ensures
        resolved(settings) is Ok,
        first_step(resolved(settings)->Ok_0) == StepView::Greet,
        outcome(settings, exchange) == Ok::<Seq<char>, AskError>(GREETING@),
{
}

/// Where no key was given, the invocation ends with a configuration error
/// before any step is decided, whatever else was given and whatever the
/// network would have done.
pub proof fn lemma_missing_key_is_a_configuration_error(settings: SettingsView, exchange: Exchange)
    requires
        settings.key.flag is None,
        settings.key.env is None,
    ensures
        resolved(settings) == Err::<ConfigurationView, AskError>(AskError::Configuration),
        outcome(settings, exchange) == Err::<Seq<char>, AskError>(AskError::Configuration),
{
}

/// Where a key and an input were given, exactly one request is laid out,
/// and the invocation prints the reply of the response document as it
/// stands there: nothing is added, trimmed or re-encoded.
pub proof fn lemma_reply_is_printed_unchanged(settings: SettingsView, doc: JsonValue, reply: Seq<char>)
    requires
        settings.key.flag is Some || settings.key.env is Some,
        joined(settings.input).len() > 0,
        reply_text(doc) == Some(reply),
    ensures
        first_step(resolved(settings)->Ok_0) is Send,
        outcome(settings, Some(Some(doc))) == Ok::<Seq<char>, AskError>(reply),
{
}

/// Where a request was sent, an invocation ends with a format error exactly
/// where the response body is not JSON or the document holds no reply, and
/// with a transport error exactly where there was no response.
pub proof fn lemma_failures_after_sending(settings: SettingsView, exchange: Exchange)
    requires
        settings.key.flag is Some || settings.key.env is Some,
        joined(settings.input).len() > 0,
    ensures
        outcome(settings, exchange) == Err::<Seq<char>, AskError>(AskError::Transport)
            <==> exchange is None,
        outcome(settings, exchange) == Err::<Seq<char>, AskError>(AskError::ResponseFormat) <==> (
            exchange == Some(None::<JsonValue>) || (exchange matches Some(Some(doc)) && reply_text(doc)
                is None)),
{
}

} // verus!
