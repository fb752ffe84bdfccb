//! The inference exchange: the request that goes to the backend, and what
//! its answer means for the user.

use crate::json::{document, parsed_view, quote, quoted, Json, JsonView};
use vstd::prelude::*;
use vstd::string::StringExecFns;

verus! {

/// Where the backend listens.
pub const BACKEND: &'static str = "http://192.168.2.56:8080";

/// The path of the chat-completion endpoint below [`BACKEND`].
pub const COMPLETIONS_PATH: &'static str = "/v1/chat/completions";

/// The model that every request names. The backend serves one model and
/// ignores the name.
pub const MODEL: &'static str = "amogus";

/// The `Content-Type` header of an inference request.
pub const CONTENT_TYPE: &'static str = "application/json";

/// The `Authorization` header of an inference request.
pub const AUTHORIZATION: &'static str = "Bearer amogus";

/// One inference request: where it is posted, the model it names and the
/// user's prompt. The sampling temperature is fixed and appears only in
/// [`InferenceRequest::body`].
#[derive(Debug, PartialEq, Eq)]
pub struct InferenceRequest {
    pub url: String,
    pub model: String,
    pub prompt: String,
}

/// The mathematical value of an [`InferenceRequest`].
pub struct InferenceRequestView {
    pub url: Seq<char>,
    pub model: Seq<char>,
    pub prompt: Seq<char>,
}

impl View for InferenceRequest {
    type V = InferenceRequestView;

    open spec fn view(&self) -> InferenceRequestView {
        InferenceRequestView { url: self.url@, model: self.model@, prompt: self.prompt@ }
    }
}

/// The request that carries `prompt`.
pub open spec fn request_for(prompt: Seq<char>) -> InferenceRequestView {
    InferenceRequestView { url: BACKEND@ + COMPLETIONS_PATH@, model: MODEL@, prompt }
}

/// The JSON text of a request's body: one user message that holds the
/// prompt, the model's name, and the temperature 0.4, with the keys of each
/// object in alphabetical order and no white space.
pub open spec fn body_text(request: InferenceRequestView) -> Seq<char> {
    "{\"messages\":[{\"content\":"@ + quoted(request.prompt) + ",\"role\":\"user\"}],\"model\":"@
        + quoted(request.model) + ",\"temperature\":0.4}"@
}

impl InferenceRequest {
    /// Builds the request for one prompt.
    pub fn new(prompt: String) -> (request: InferenceRequest)
        ensures
            request@ == request_for(prompt@),
    {
        InferenceRequest {
            url: String::from_str(BACKEND).concat(COMPLETIONS_PATH),
            model: String::from_str(MODEL),
            prompt,
        }
    }

    /// Writes the body that is posted.
    pub fn body(&self) -> (text: String)
        ensures
            text@ == body_text(self@),
    {
        let prompt = quote(self.prompt.as_str());
        let model = quote(self.model.as_str());
        let mut text = String::from_str("{\"messages\":[{\"content\":");
        text.append(prompt.as_str());
        text.append(",\"role\":\"user\"}],\"model\":");
        text.append(model.as_str());
        text.append(",\"temperature\":0.4}");
        text
    }
}

/// Why an inference exchange gave no reply text.
#[derive(Debug, Clone, Copy, PartialEq, Eq, Structural)]
pub enum Failure {
    /// The request did not reach the backend.
    Send,
    /// The backend answered, but the body of its answer could not be read.
    Read,
    /// The body is not JSON.
    Parse,
    /// The body is JSON, but holds no reply text where one is expected.
    Shape,
}

/// What the user is told after `failure`. A body that is not JSON and one of
/// the wrong shape are reported alike.
pub open spec fn failure_text(failure: Failure) -> Seq<char> {
    match failure {
        Failure::Send => "An error occurred while sending the request."@,
        Failure::Read => "An error occurred while reading the response."@,
        Failure::Parse => "An error occurred while parsing the response."@,
        Failure::Shape => "An error occurred while parsing the response."@,
    }
}

/// A failure to send, a failure to read and a failure to parse are told to
/// the user in three different messages.
pub proof fn lemma_failures_read_differently()
    ensures
        failure_text(Failure::Send) != failure_text(Failure::Read),
        failure_text(Failure::Send) != failure_text(Failure::Parse),
        failure_text(Failure::Read) != failure_text(Failure::Parse),
        failure_text(Failure::Shape) == failure_text(Failure::Parse),
{
    reveal_strlit("An error occurred while sending the request.");
    reveal_strlit("An error occurred while reading the response.");
    reveal_strlit("An error occurred while parsing the response.");
    assert(failure_text(Failure::Send)[24] == 's');
    assert(failure_text(Failure::Read)[24] == 'r');
    assert(failure_text(Failure::Parse)[24] == 'p');
}

impl Failure {
    /// The message for the user.
    pub fn user_message(self) -> (text: &'static str)
        ensures
            text@ == failure_text(self),
    {
        match self {
            Failure::Send => "An error occurred while sending the request.",
            Failure::Read => "An error occurred while reading the response.",
            Failure::Parse => "An error occurred while parsing the response.",
            Failure::Shape => "An error occurred while parsing the response.",
        }
    }
}

/// The outcome of one inference exchange.
#[derive(Debug, PartialEq, Eq)]
pub enum InferenceResult {
    /// The reply of the model.
    Text(String),
    /// No reply, and why.
    Failure(Failure),
}

/// The mathematical value of an [`InferenceResult`].
pub enum InferenceResultView {
    Text(Seq<char>),
    Failure(Failure),
}

impl View for InferenceResult {
    type V = InferenceResultView;

    open spec fn view(&self) -> InferenceResultView {
        match self {
            InferenceResult::Text(text) => InferenceResultView::Text(text@),
            InferenceResult::Failure(failure) => InferenceResultView::Failure(*failure),
        }
    }
}

impl InferenceResultView {
    /// The one message that goes to the user: the reply itself, or the text
    /// of the failure.
    pub open spec fn message(self) -> Seq<char> {
        match self {
            InferenceResultView::Text(text) => text,
            InferenceResultView::Failure(failure) => failure_text(failure),
        }
    }
}

impl InferenceResult {
    /// The one message that goes to the user.
    pub fn into_message(self) -> (text: String)
        ensures
            text@ == self@.message(),
    {
        match self {
            InferenceResult::Text(text) => text,
            InferenceResult::Failure(failure) => String::from_str(failure.user_message()),
        }
    }
}

/// The reply text in a completion document: the string at
/// `choices[0].message.content`.
pub open spec fn reply_content(doc: JsonView) -> Option<Seq<char>> {
    match doc.member("choices"@) {
        Some(choices) => match choices.element(0) {
            Some(choice) => match choice.member("message"@) {
                Some(message) => match message.member("content"@) {
                    Some(content) => content.text(),
                    None => None,
                },
                None => None,
            },
            None => None,
        },
        None => None,
    }
}

/// Finds the reply text in a completion document.
pub fn content_of(doc: &Json) -> (content: Option<&str>)
    ensures
        match content {
            Some(text) => reply_content(doc@) == Some(text@),
            None => reply_content(doc@).is_none(),
        },
{
    match doc.member("choices") {
        Some(choices) => match choices.element(0) {
            Some(choice) => match choice.member("message") {
                Some(message) => match message.member("content") {
                    Some(content) => content.as_text(),
                    None => None,
                },
                None => None,
            },
            None => None,
        },
        None => None,
    }
}

/// What a body that was read means, given the document it parses to (`None`
/// where it is not JSON).
pub open spec fn result_of(parsed: Option<JsonView>) -> InferenceResultView {
    match parsed {
        None => InferenceResultView::Failure(Failure::Parse),
        Some(doc) => match reply_content(doc) {
            Some(text) => InferenceResultView::Text(text),
            None => InferenceResultView::Failure(Failure::Shape),
        },
    }
}

/// Turns the parsed body of an answer into the exchange's result.
pub fn result_of_document(parsed: Option<Json>) -> (result: InferenceResult)
    ensures
        result@ == result_of(parsed_view(parsed)),
{
    match parsed {
        None => InferenceResult::Failure(Failure::Parse),
        Some(doc) => match content_of(&doc) {
            Some(text) => InferenceResult::Text(String::from_str(text)),
            None => InferenceResult::Failure(Failure::Shape),
        },
    }
}

/// Reads the body of the backend's answer: parses it and takes the reply
/// text out of it.
pub fn read_reply(body: &str) -> (result: InferenceResult)
    ensures
        result@ == result_of(document(body@)),
{
    result_of_document(Json::parse(body))
}

} // verus!
