//! Documents of the knowledge base and searches over them.
//!
//! Embedding vectors and similarity scores are single-precision floats; the
//! library carries each as the `u32` of its IEEE-754 bit pattern
//! (`f32::to_bits`), which it moves around but never computes with.
use vstd::prelude::*;

verus! {

/// A chunk of a document as the storage holds it.
#[derive(Debug)]
pub struct Document {
    pub id: String,
    pub chunk_id: String,
    pub title: String,
    pub file_path: String,
    pub content: String,
    /// Bit patterns of the embedding's `f32` components.
    pub embeddings: Vec<u32>,
}

/// A document, or a chunk of one, to be stored.
#[derive(Debug)]
pub struct CreateDocument {
    pub doc_id: String,
    pub title: String,
    pub file_path: String,
    pub content: String,
    /// Bit patterns of the embedding's `f32` components.
    pub embeddings: Vec<u32>,
}

/// A similarity search: the collection, the query vector and how many
/// results to return at most.
#[derive(Debug)]
pub struct SearchParams {
    pub collection: String,
    /// Bit patterns of the query vector's `f32` components.
    pub vector: Vec<u32>,
    pub limit: u64,
}

/// One hit of a similarity search.
#[derive(Debug)]
pub struct SearchResult {
    pub id: String,
    /// Bit pattern of the `f32` similarity score.
    pub score: u32,
    pub title: String,
    pub payload: String,
}

} // verus!
