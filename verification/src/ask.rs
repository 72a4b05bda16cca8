//! One question to the completion endpoint, with everything it is asked with.

use vstd::prelude::*;
use crate::message::{Message, MessageView, message_views};
use crate::request::{RequestBody, RequestBodyView, request_text};
use crate::transport::{HttpRequest, HttpRequestView, json_post};

verus! {

/// Where completions are asked for.
pub const COMPLETIONS_URL: &'static str = "https://api.openai.com/v1/chat/completions";

/// How many seconds the connection to the endpoint may take to come about.
pub const CONNECT_TIMEOUT_SECS: u64 = 10;

/// A question that is ready to be asked. The prompt and the temperature are
/// carried along as they were configured; of these only the prompt reaches
/// the endpoint, as the content of the system message.
#[derive(Debug, PartialEq, Eq)]
pub struct OpenaiAsk {
    pub api_key: String,
    pub model: String,
    pub prompt: String,
    /// The sampling temperature, as the decimal text it was given in.
    pub temp: String,
    pub max_tokens: usize,
    pub messages: Vec<Message>,
}

/// A question as mathematics sees it.
pub struct OpenaiAskView {
    pub api_key: Seq<char>,
    pub model: Seq<char>,
    pub prompt: Seq<char>,
    pub temp: Seq<char>,
    pub max_tokens: nat,
    pub messages: Seq<MessageView>,
}

impl View for OpenaiAsk {
    type V = OpenaiAskView;

    open spec fn view(&self) -> OpenaiAskView {
        OpenaiAskView {
            api_key: self.api_key@,
            model: self.model@,
            prompt: self.prompt@,
            temp: self.temp@,
            max_tokens: self.max_tokens as nat,
            messages: message_views(self.messages@),
        }
    }
}

/// Makes questions.
#[derive(Debug, Default)]
pub struct OpenaiAskBuilder {}

impl OpenaiAskBuilder {
    /// The question with exactly these parts.
    pub fn new(
        api_key: String,
        model: String,
        prompt: String,
        temp: String,
        max_tokens: usize,
        messages: Vec<Message>,
    ) -> (ask: OpenaiAsk)
        ensures
            ask@ == (OpenaiAskView {
                api_key: api_key@,
                model: model@,
                prompt: prompt@,
                temp: temp@,
                max_tokens: max_tokens as nat,
                messages: message_views(messages@),
            }),
    {
        OpenaiAsk { api_key, model, prompt, temp, max_tokens, messages }
    }
}

/// The body that a question is sent with: its model, its messages and its
/// token budget. The temperature is not part of it.
pub open spec fn body_of(ask: OpenaiAskView) -> RequestBodyView {
    RequestBodyView { model: ask.model, messages: ask.messages, max_tokens: ask.max_tokens }
}

/// The request that asks a question: a `POST` of its body's JSON text to
/// [`COMPLETIONS_URL`], authorised by its key.
pub open spec fn request_of(ask: OpenaiAskView) -> HttpRequestView {
    json_post(
        COMPLETIONS_URL@,
        ask.api_key,
        request_text(body_of(ask)),
        CONNECT_TIMEOUT_SECS as nat,
    )
}

impl OpenaiAsk {
    /// Lays out the request that asks this question.
    pub fn into_request(self) -> (request: HttpRequest)
        ensures
            request@ == request_of(self@),
    {
        let body = RequestBody {
            model: self.model,
            messages: self.messages,
            max_tokens: self.max_tokens,
        };
        assert(body@ == body_of(self@));
        let text = body.to_json();
        HttpRequest::post_json(
            COMPLETIONS_URL,
            self.api_key.as_str(),
            text.as_str(),
            CONNECT_TIMEOUT_SECS,
        )
    }
}

} // verus!
