//! What is asked of the completion service, and what its answer means.
//!
//! The exchange itself belongs to the caller. This module builds what is
//! sent and decides what came back: the text of the first choice, or the
//! failure that is shown to the user.

use vstd::prelude::*;
use crate::llm::message::ChatMessage;
use crate::text::prefixed;

verus! {

/// Where completions are asked for.
pub const API_URL: &'static str = "https://openrouter.ai/api/v1/chat/completions";

/// The environment variable that names the model that answers.
pub const MODEL_VARIABLE: &'static str = "OPENROUTER_MODEL";

/// The environment variable that holds the key of the service.
pub const API_KEY_VARIABLE: &'static str = "OPENROUTER_API_KEY";

/// What precedes the key in the authorization header.
pub const BEARER: &'static str = "Bearer ";

/// What the user reads when no key is set.
pub const MISSING_API_KEY: &'static str = "OPENROUTER_API_KEY environment variable not set";

/// What precedes the service's own words when it refuses a request.
pub const REQUEST_FAILED: &'static str = "API request failed: ";

/// What the user reads when an answer holds no choice.
pub const NO_CHOICES: &'static str = "No response choices received from API";

/// Why no completion came back.
#[derive(Debug, PartialEq, Eq)]
pub enum CompletionError {
    /// No key for the service is set.
    MissingApiKey,
    /// The exchange itself failed; the transport's own words.
    Transport(String),
    /// The service answered with a status other than success; the body of
    /// its answer.
    RequestFailed(String),
    /// The service answered with success and no choice.
    NoChoices,
}

impl CompletionError {
    /// The one line that tells the user what went wrong.
    pub open spec fn message_text(self) -> Seq<char> {
        match self {
            CompletionError::MissingApiKey => MISSING_API_KEY@,
            CompletionError::Transport(words) => words@,
            CompletionError::RequestFailed(body) => REQUEST_FAILED@ + body@,
            CompletionError::NoChoices => NO_CHOICES@,
        }
    }

    /// The one line that tells the user what went wrong.
    pub fn message(&self) -> (message: String)
        ensures
            message@ == self.message_text(),
    {
        match self {
            CompletionError::MissingApiKey => MISSING_API_KEY.to_owned(),
            CompletionError::Transport(words) => words.clone(),
            CompletionError::RequestFailed(body) => prefixed(REQUEST_FAILED, body.as_str()),
            CompletionError::NoChoices => NO_CHOICES.to_owned(),
        }
    }
}

/// The body of a request for a completion.
#[derive(Debug, PartialEq, Eq)]
pub struct ChatRequest {
    pub model: String,
    pub messages: Vec<ChatMessage>,
}

/// The request that asks `model` to continue `messages`.
pub fn chat_request(model: String, messages: Vec<ChatMessage>) -> (request: ChatRequest)
    ensures
        request.model == model,
        request.messages == messages,
{
    ChatRequest { model, messages }
}

/// The value of the authorization header for `api_key`.
pub fn authorization(api_key: &str) -> (header: String)
    ensures
        header@ == BEARER@ + api_key@,
{
    prefixed(BEARER, api_key)
}

/// The key of the service, given the value of its variable where one is set.
pub fn api_key(variable: Option<String>) -> (key: Result<String, CompletionError>)
    ensures
        key == match variable {
            Some(value) => Ok::<String, CompletionError>(value),
            None => Err(CompletionError::MissingApiKey),
        },
{
    match variable {
        Some(value) => Ok(value),
        None => Err(CompletionError::MissingApiKey),
    }
}

/// `reqwest::StatusCode::from_u16` followed by `StatusCode::is_success`.
/// A number from 100 to 999 is a status code; one from 200 to 299 is a
/// success. For any other number there is no status code to ask.
#[verifier::external_body]
fn status_success(code: u16) -> (success: Option<bool>)
    ensures
        success == if 100 <= code <= 999 {
            Some(200 <= code <= 299)
        } else {
            None
        },
{
    match reqwest::StatusCode::from_u16(code) {
        Ok(status) => Some(status.is_success()),
        Err(_) => None,
    }
}

/// Whether an answer with status `code` is a success: whether `code` is one
/// of 200 to 299.
pub fn is_success(code: u16) -> (success: bool)
    ensures
        success == (200 <= code <= 299),
{
    match status_success(code) {
        Some(success) => success,
        None => false,
    }
}

/// The failure for an answer whose status was not a success and whose body
/// was `body`.
pub fn request_failed(body: String) -> (error: CompletionError)
    ensures
        error == CompletionError::RequestFailed(body),
{
    CompletionError::RequestFailed(body)
}

/// The completion in a successful answer: the content of its first choice.
/// An answer without choices is a failure.
/// `choices` holds the content of each choice, in the order of the answer.
pub fn first_choice(choices: Vec<String>) -> (completion: Result<String, CompletionError>)
    ensures
        choices.len() == 0 ==> completion == Err::<String, CompletionError>(
            CompletionError::NoChoices,
        ),
        choices.len() > 0 ==> completion == Ok::<String, CompletionError>(choices[0]),
{
    if choices.is_empty() {
        Err(CompletionError::NoChoices)
    } else {
        Ok(choices[0].clone())
    }
}

} // verus!
