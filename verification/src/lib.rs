//! A retrieval-augmented assistant: questions are grounded in the documents
//! of a vector store before a language model answers them, and documents
//! are split into chunks, embedded and stored.
use vstd::prelude::*;

pub mod application;
pub mod infrastructure;
pub mod text;
mod tracer;

pub use tracer::LoggerConfig;

verus! {

/// The name that the service reports itself under.
pub const SERVICE_NAME: &'static str = "rag";

} // verus!
