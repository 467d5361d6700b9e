//! Errors that the HTTP server answers with, and its success answer.
use vstd::prelude::*;

use crate::application::services::assistant::AssistantError;
use crate::application::services::storage::StorageError;

verus! {

/// The text that answers a request while the server is unavailable.
pub const UNAVAILABLE_SERVER: &'static str = "server unavailable";

pub type ServerResult<T> = Result<T, ServerError>;

/// An error answer of the HTTP server.
#[derive(Debug)]
pub enum ServerError {
    Conflict(String),
    NotFound(String),
    ValidationError(String),
    InternalError(String),
    ServerUnavailable,
}

impl ServerError {
    /// The HTTP status code that the kind of this error names.
    pub open spec fn status_number(self) -> u16 {
        match self {
            ServerError::NotFound(_) => 404,
            ServerError::Conflict(_) => 409,
            ServerError::ValidationError(_) => 400,
            ServerError::InternalError(_) => 500,
            ServerError::ServerUnavailable => 503,
        }
    }

    /// The body text of the answer to this error.
    pub open spec fn status_text(self) -> Seq<char> {
        match self {
            ServerError::NotFound(m) => m@,
            ServerError::Conflict(m) => m@,
            ServerError::ValidationError(m) => m@,
            ServerError::InternalError(m) => m@,
            ServerError::ServerUnavailable => UNAVAILABLE_SERVER@,
        }
    }

    /// The description of the error.
    pub open spec fn description(self) -> Seq<char> {
        match self {
            ServerError::Conflict(m) => "resource data conflict: "@ + m@,
            ServerError::NotFound(m) => "not found error: "@ + m@,
            ServerError::ValidationError(m) => "not valid input data: "@ + m@,
            ServerError::InternalError(m) => "internal service error: "@ + m@,
            ServerError::ServerUnavailable => "server unavailable"@,
        }
    }

    /// The HTTP status that the API's routes answer this error with: as
    /// their documentation declares, 503 for an unavailable server and 400
    /// for every other error.
    pub open spec fn answer_status(self) -> u16 {
        match self {
            ServerError::ServerUnavailable => 503,
            _ => 400,
        }
    }

    /// The status, as a number, and the body text that the API's routes
    /// answer this error with.
    pub fn error_answer(&self) -> (r: (u16, String))
        ensures
            r.0 == self.answer_status(),
            r.1@ == self.status_text(),
    {
        match self {
            ServerError::NotFound(msg) => (400, msg.clone()),
            ServerError::Conflict(msg) => (400, msg.clone()),
            ServerError::ValidationError(msg) => (400, msg.clone()),
            ServerError::InternalError(msg) => (400, msg.clone()),
            ServerError::ServerUnavailable => (503, UNAVAILABLE_SERVER.to_string()),
        }
    }

    /// The HTTP status code that the kind of this error names, as a
    /// number, and its body text. The API's routes answer with
    /// [`ServerError::error_answer`] instead, as their documentation
    /// declares.
    pub fn status_code(&self) -> (r: (u16, String))
        ensures
            r.0 == self.status_number(),
            r.1@ == self.status_text(),
    {
        match self {
            ServerError::NotFound(msg) => (404, msg.clone()),
            ServerError::Conflict(msg) => (409, msg.clone()),
            ServerError::ValidationError(msg) => (400, msg.clone()),
            ServerError::InternalError(msg) => (500, msg.clone()),
            ServerError::ServerUnavailable => (503, UNAVAILABLE_SERVER.to_string()),
        }
    }

    /// Describes the error, such as `not found error: no such document`.
    pub fn to_string(&self) -> (r: String)
        ensures
            r@ == self.description(),
    {
        match self {
            ServerError::Conflict(m) => {
                let mut r = "resource data conflict: ".to_string();
                r.append(m.as_str());
                r
            },
            ServerError::NotFound(m) => {
                let mut r = "not found error: ".to_string();
                r.append(m.as_str());
                r
            },
            ServerError::ValidationError(m) => {
                let mut r = "not valid input data: ".to_string();
                r.append(m.as_str());
                r
            },
            ServerError::InternalError(m) => {
                let mut r = "internal service error: ".to_string();
                r.append(m.as_str());
                r
            },
            ServerError::ServerUnavailable => "server unavailable".to_string(),
        }
    }
}

/// The server error that an assistant error answers with: a validation
/// error stays a validation error, every other one is an internal error;
/// either carries the text of the underlying error.
pub open spec fn server_error_of_assistant(err: AssistantError) -> ServerError {
    match err {
        AssistantError::ValidationError(m) => ServerError::ValidationError(m),
        AssistantError::AuthenticationFailed(m) => ServerError::InternalError(m),
        AssistantError::ConnectionLost(m) => ServerError::InternalError(m),
        AssistantError::IncorrectResponseType(m) => ServerError::InternalError(m),
        AssistantError::EmptyResponseContent(m) => ServerError::InternalError(m),
        AssistantError::TooManyRequests(m) => ServerError::InternalError(m),
        AssistantError::StreamError(m) => ServerError::InternalError(m),
        AssistantError::UndeclaredError(m) => ServerError::InternalError(m),
    }
}

impl From<AssistantError> for ServerError {
    fn from(err: AssistantError) -> (r: Self) {
        match err {
            AssistantError::ConnectionLost(m) => ServerError::InternalError(m),
            AssistantError::IncorrectResponseType(m) => ServerError::InternalError(m),
            AssistantError::EmptyResponseContent(m) => ServerError::InternalError(m),
            AssistantError::AuthenticationFailed(m) => ServerError::InternalError(m),
            AssistantError::TooManyRequests(m) => ServerError::InternalError(m),
            AssistantError::ValidationError(m) => ServerError::ValidationError(m),
            AssistantError::StreamError(m) => ServerError::InternalError(m),
            AssistantError::UndeclaredError(m) => ServerError::InternalError(m),
        }
    }
}

impl vstd::std_specs::convert::FromSpecImpl<AssistantError> for ServerError {
    open spec fn obeys_from_spec() -> bool {
        true
    }

    open spec fn from_spec(err: AssistantError) -> ServerError {
        server_error_of_assistant(err)
    }
}

/// The server error that a storage error answers with: an internal error
/// with the text of the underlying error.
pub open spec fn server_error_of_storage(err: StorageError) -> ServerError {
    match err {
        StorageError::InternalError(m) => ServerError::InternalError(m),
    }
}

impl From<StorageError> for ServerError {
    fn from(err: StorageError) -> (r: Self) {
        match err {
            StorageError::InternalError(m) => ServerError::InternalError(m),
        }
    }
}

impl vstd::std_specs::convert::FromSpecImpl<StorageError> for ServerError {
    open spec fn obeys_from_spec() -> bool {
        true
    }

    open spec fn from_spec(err: StorageError) -> ServerError {
        server_error_of_storage(err)
    }
}

/// The answer to a request that succeeded: a status and a message.
#[derive(Debug)]
pub struct Success {
    status: u16,
    message: String,
}

/// The contents of a [`Success`].
pub struct SuccessView {
    pub status: u16,
    pub message: Seq<char>,
}

impl View for Success {
    type V = SuccessView;

    closed spec fn view(&self) -> SuccessView {
        SuccessView { status: self.status, message: self.message@ }
    }
}

impl Default for Success {
    /// Status 200 with the message `Ok`.
    fn default() -> (r: Self)
        ensures
            r@ == (SuccessView { status: 200, message: "Ok"@ }),
    {
        Success { status: 200, message: "Ok".to_string() }
    }
}

impl Success {
    pub fn new(status: u16, message: &str) -> (r: Self)
        ensures
            r@ == (SuccessView { status, message: message@ }),
    {
        Success { status, message: message.to_string() }
    }

    pub fn status(&self) -> (r: u16)
        ensures
            r == self@.status,
    {
        self.status
    }

    pub fn message(&self) -> (r: &String)
        ensures
            r@ == self@.message,
    {
        &self.message
    }
}

} // verus!

verus! {

/// The answer to a failed assistant request: status 400, as the API
/// documentation declares for every error but an unavailable server, with
/// the text of the underlying error as its body.
pub proof fn lemma_assistant_error_answer(err: AssistantError)
    ensures
        server_error_of_assistant(err).answer_status() == 400,
        server_error_of_assistant(err).status_text() == err.detail(),
{
}

/// The answer to a failed storage request: status 400, as the API
/// documentation declares for every error but an unavailable server, with
/// the text of the underlying error as its body.
pub proof fn lemma_storage_error_answer(err: StorageError)
    ensures
        server_error_of_storage(err).answer_status() == 400,
        server_error_of_storage(err).status_text() == err.detail(),
{
}

/// Only an unavailable server is answered with a status other than 400.
pub proof fn lemma_only_unavailable_answers_503(err: ServerError)
    ensures
        err.answer_status() == 503 <==> err is ServerUnavailable,
        err.answer_status() == 400 <==> !(err is ServerUnavailable),
{
}

} // verus!
