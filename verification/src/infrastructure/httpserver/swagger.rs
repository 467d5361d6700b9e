//! The paths and examples of the API documentation.
use vstd::prelude::*;

use crate::application::services::{ServerError, Success, SuccessView};

verus! {

/// The path that serves the documentation of API `version`.
pub fn swagger_url_path(version: &str) -> (path: String)
    ensures
        path@ == "/api/"@ + version@ + "/swagger"@,
{
    let mut path = "/api/".to_string();
    path.append(version);
    path.append("/swagger");
    path
}

/// The path that serves the OpenAPI description of API `version`.
pub fn openapi_config_path(version: &str) -> (path: String)
    ensures
        path@ == "/api-docs/openapi-"@ + version@ + ".json"@,
{
    let mut path = "/api-docs/openapi-".to_string();
    path.append(version);
    path.append(".json");
    path
}

/// A value that the API documentation shows as an example.
pub trait SwaggerExample {
    type Example;

    fn example(value: Option<&str>) -> Self::Example;
}

impl SwaggerExample for Success {
    type Example = Self;

    /// The default success, whatever the value.
    fn example(value: Option<&str>) -> (r: Self)
        ensures
            r@ == (SuccessView { status: 200, message: "Ok"@ }),
    {
        Success::default()
    }
}

impl SwaggerExample for ServerError {
    type Example = Self;

    /// An internal error with the given text, or without one the answer
    /// of an unavailable server.
    fn example(value: Option<&str>) -> (r: Self)
        ensures
            match value {
                Some(msg) => r is InternalError && r.status_text() == msg@,
                None => r is ServerUnavailable,
            },
    {
        match value {
            None => ServerError::ServerUnavailable,
            Some(msg) => ServerError::InternalError(msg.to_string()),
        }
    }
}

} // verus!

verus! {

/// The documented examples are answered as documented: the example of an
/// unavailable server with status 503 and the text `server unavailable`,
/// the example with a text with status 400 and that text.
pub proof fn lemma_error_examples_answer(value: Option<&str>, r: ServerError)
    requires
        match value {
            Some(msg) => r is InternalError && r.status_text() == msg@,
            None => r is ServerUnavailable,
        },
    ensures
        r.answer_status() == (if value is Some {
            400u16
        } else {
            503u16
        }),
        r.status_text() == match value {
            Some(msg) => msg@,
            None => crate::application::services::UNAVAILABLE_SERVER@,
        },
{
}

} // verus!
