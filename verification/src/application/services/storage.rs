//! Errors of the document storage.
use vstd::prelude::*;

verus! {

pub type StorageResult<T> = Result<T, StorageError>;

/// What went wrong in the document storage, with the text of the
/// underlying error.
#[derive(Debug)]
pub enum StorageError {
    InternalError(String),
}

impl StorageError {
    /// The text of the underlying error.
    pub open spec fn detail(self) -> Seq<char> {
        match self {
            StorageError::InternalError(m) => m@,
        }
    }

    /// The description of the error.
    pub open spec fn description(self) -> Seq<char> {
        "storage internal error: "@ + self.detail()
    }

    /// Describes the error, such as `storage internal error: timeout`.
    pub fn to_string(&self) -> (r: String)
        ensures
            r@ == self.description(),
    {
        let mut r = "storage internal error: ".to_string();
        match self {
            StorageError::InternalError(m) => r.append(m.as_str()),
        }
        r
    }
}

} // verus!
