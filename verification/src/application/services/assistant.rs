//! Errors of the assistant (the language model) and how errors that its
//! API reports map to them.
use vstd::prelude::*;

use crate::text::{decimal, decimal_string};

verus! {

pub type AssistantResult<T> = Result<T, AssistantError>;

/// What went wrong when the assistant was asked. Each variant carries the
/// text of the underlying error.
#[derive(Debug)]
pub enum AssistantError {
    AuthenticationFailed(String),
    ConnectionLost(String),
    IncorrectResponseType(String),
    EmptyResponseContent(String),
    TooManyRequests(String),
    ValidationError(String),
    StreamError(String),
    UndeclaredError(String),
}

impl AssistantError {
    /// The text of the underlying error.
    pub open spec fn detail(self) -> Seq<char> {
        match self {
            AssistantError::AuthenticationFailed(m) => m@,
            AssistantError::ConnectionLost(m) => m@,
            AssistantError::IncorrectResponseType(m) => m@,
            AssistantError::EmptyResponseContent(m) => m@,
            AssistantError::TooManyRequests(m) => m@,
            AssistantError::ValidationError(m) => m@,
            AssistantError::StreamError(m) => m@,
            AssistantError::UndeclaredError(m) => m@,
        }
    }

    /// The prefix that the error's description puts before the detail.
    pub open spec fn prefix(self) -> Seq<char> {
        match self {
            AssistantError::AuthenticationFailed(_) => "authentication failed: "@,
            AssistantError::ConnectionLost(_) => "connection to llm has been lost: "@,
            AssistantError::IncorrectResponseType(_) => "returned incorrect chat message from llm: "@,
            AssistantError::EmptyResponseContent(_) => "returned empty response from llm: "@,
            AssistantError::TooManyRequests(_) => "too many requests to llm: "@,
            AssistantError::ValidationError(_) => "validation error: "@,
            AssistantError::StreamError(_) => "streaming error: "@,
            AssistantError::UndeclaredError(_) => "returned undeclared error from opensearch: "@,
        }
    }

    /// The description of the error.
    pub open spec fn description(self) -> Seq<char> {
        self.prefix() + self.detail()
    }

    /// The text of the underlying error.
    pub fn detail_text(&self) -> (r: &String)
        ensures
            r@ == self.detail(),
    {
        match self {
            AssistantError::AuthenticationFailed(m) => m,
            AssistantError::ConnectionLost(m) => m,
            AssistantError::IncorrectResponseType(m) => m,
            AssistantError::EmptyResponseContent(m) => m,
            AssistantError::TooManyRequests(m) => m,
            AssistantError::ValidationError(m) => m,
            AssistantError::StreamError(m) => m,
            AssistantError::UndeclaredError(m) => m,
        }
    }

    /// Describes the error, such as `validation error: bad model`.
    pub fn to_string(&self) -> (r: String)
        ensures
            r@ == self.description(),
    {
        let mut r = match self {
            AssistantError::AuthenticationFailed(_) => "authentication failed: ".to_string(),
            AssistantError::ConnectionLost(_) => "connection to llm has been lost: ".to_string(),
            AssistantError::IncorrectResponseType(_) => "returned incorrect chat message from llm: ".to_string(),
            AssistantError::EmptyResponseContent(_) => "returned empty response from llm: ".to_string(),
            AssistantError::TooManyRequests(_) => "too many requests to llm: ".to_string(),
            AssistantError::ValidationError(_) => "validation error: ".to_string(),
            AssistantError::StreamError(_) => "streaming error: ".to_string(),
            AssistantError::UndeclaredError(_) => "returned undeclared error from opensearch: ".to_string(),
        };
        r.append(self.detail_text().as_str());
        r
    }
}

/// An error that the language model's API reports, with the same variants
/// as `openai_dive`'s `APIError`.
#[derive(Debug)]
pub enum LlmApiError {
    AuthenticationError(String),
    BadRequestError(String),
    PermissionError(String),
    NotFoundError(String),
    GoneError(String),
    ServerError(String),
    InvalidRequestError(String),
    RateLimitError(String),
    ParseError(String),
    FileError(String),
    StreamError(String),
    WebSocketError(String),
    UnknownError(u16, String),
}

/// The assistant error that an API error becomes: its variant, and its
/// detail written as the prefix of the API error's class followed by the
/// API error's message.
pub open spec fn api_error_outcome(e: LlmApiError, r: AssistantError) -> bool {
    match e {
        LlmApiError::AuthenticationError(m) => r is AuthenticationFailed && r.detail() == "auth error: "@
            + m@,
        LlmApiError::PermissionError(m) => r is AuthenticationFailed && r.detail()
            == "permissions error: "@ + m@,
        LlmApiError::InvalidRequestError(m) => r is ValidationError && r.detail()
            == "validation error: "@ + m@,
        LlmApiError::RateLimitError(m) => r is TooManyRequests && r.detail()
            == "rate limiter warning: "@ + m@,
        LlmApiError::ParseError(m) => r is ValidationError && r.detail() == "validation error: "@
            + m@,
        LlmApiError::FileError(m) => r is ValidationError && r.detail() == "validation error: "@
            + m@,
        LlmApiError::BadRequestError(m) => r is StreamError && r.detail() == "stream error: "@ + m@,
        LlmApiError::ServerError(m) => r is StreamError && r.detail() == "stream error: "@ + m@,
        LlmApiError::StreamError(m) => r is StreamError && r.detail() == "stream error: "@ + m@,
        LlmApiError::UnknownError(code, m) => r is UndeclaredError && r.detail()
            == "unknown response "@ + decimal(code as nat) + " code error: "@ + m@,
        LlmApiError::NotFoundError(m) => r is StreamError && r.detail() == "stream error: "@ + m@,
        LlmApiError::GoneError(m) => r is StreamError && r.detail() == "stream error: "@ + m@,
        LlmApiError::WebSocketError(m) => r is StreamError && r.detail() == "stream error: "@ + m@,
    }
}

fn prefixed(prefix: &str, message: &String) -> (r: String)
    ensures
        r@ == prefix@ + message@,
{
    let mut r = prefix.to_string();
    r.append(message.as_str());
    r
}

impl AssistantError {
    /// Maps an error of the language model's API to an assistant error.
    pub fn from_api_error(e: LlmApiError) -> (r: AssistantError)
        ensures
            api_error_outcome(e, r),
    {
        match &e {
            LlmApiError::AuthenticationError(m) => AssistantError::AuthenticationFailed(
                prefixed("auth error: ", m),
            ),
            LlmApiError::PermissionError(m) => AssistantError::AuthenticationFailed(
                prefixed("permissions error: ", m),
            ),
            LlmApiError::InvalidRequestError(m) => AssistantError::ValidationError(
                prefixed("validation error: ", m),
            ),
            LlmApiError::RateLimitError(m) => AssistantError::TooManyRequests(
                prefixed("rate limiter warning: ", m),
            ),
            LlmApiError::ParseError(m) => AssistantError::ValidationError(
                prefixed("validation error: ", m),
            ),
            LlmApiError::FileError(m) => AssistantError::ValidationError(
                prefixed("validation error: ", m),
            ),
            LlmApiError::BadRequestError(m) => AssistantError::StreamError(
                prefixed("stream error: ", m),
            ),
            LlmApiError::ServerError(m) => AssistantError::StreamError(
                prefixed("stream error: ", m),
            ),
            LlmApiError::StreamError(m) => AssistantError::StreamError(
                prefixed("stream error: ", m),
            ),
            LlmApiError::UnknownError(code, m) => {
                let mut r = "unknown response ".to_string();
                let digits = decimal_string(*code as u64);
                r.append(digits.as_str());
                r.append(" code error: ");
                r.append(m.as_str());
                AssistantError::UndeclaredError(r)
            },
            LlmApiError::NotFoundError(m) => AssistantError::StreamError(
                prefixed("stream error: ", m),
            ),
            LlmApiError::GoneError(m) => AssistantError::StreamError(prefixed("stream error: ", m)),
            LlmApiError::WebSocketError(m) => AssistantError::StreamError(
                prefixed("stream error: ", m),
            ),
        }
    }
}

} // verus!

verus! {

/// A request that the language model's API rejects is answered with
/// status 400, whatever the API error, and the answer's body is the text
/// that the API error became.
pub proof fn lemma_api_error_answer(e: LlmApiError, r: AssistantError)
    requires
        api_error_outcome(e, r),
    ensures
        crate::application::services::server_error_of_assistant(r).answer_status() == 400,
        crate::application::services::server_error_of_assistant(r).status_text() == r.detail(),
{
}

} // verus!
