//! Errors of the embeddings service.
use vstd::prelude::*;

verus! {

pub type TokenizeResult<T> = Result<T, TokenizeError>;

/// What went wrong when a text was embedded.
#[derive(Debug)]
pub enum TokenizeError {
    /// The service answered with no embedding.
    EmptyResponse,
    /// The request failed; the text of the underlying error.
    ServiceError(String),
}

impl TokenizeError {
    /// The description of the error.
    pub open spec fn description(self) -> Seq<char> {
        match self {
            TokenizeError::EmptyResponse => "returned empty response from embeddings service"@,
            TokenizeError::ServiceError(m) => "embeddings service error: "@ + m@,
        }
    }

    /// Describes the error.
    pub fn to_string(&self) -> (r: String)
        ensures
            r@ == self.description(),
    {
        match self {
            TokenizeError::EmptyResponse => "returned empty response from embeddings service".to_string(),
            TokenizeError::ServiceError(m) => {
                let mut r = "embeddings service error: ".to_string();
                r.append(m.as_str());
                r
            },
        }
    }
}

} // verus!
