//! The vector store: how to reach it and how its search hits become
//! search results.
use vstd::prelude::*;

use crate::application::structures::SearchResult;
use crate::text::{decimal, decimal_string};

verus! {

/// How to reach the vector store, and the collection it keeps documents in.
#[derive(Debug)]
pub struct QdrantConfig {
    address: String,
    api_key: String,
    collection: String,
    dimension: u64,
}

/// The contents of a [`QdrantConfig`].
pub struct QdrantConfigView {
    pub address: Seq<char>,
    pub api_key: Seq<char>,
    pub collection: Seq<char>,
    pub dimension: u64,
}

impl View for QdrantConfig {
    type V = QdrantConfigView;

    closed spec fn view(&self) -> QdrantConfigView {
        QdrantConfigView {
            address: self.address@,
            api_key: self.api_key@,
            collection: self.collection@,
            dimension: self.dimension,
        }
    }
}

impl Clone for QdrantConfig {
    fn clone(&self) -> (r: Self)
        ensures
            r@ == self@,
    {
        QdrantConfig {
            address: self.address.clone(),
            api_key: self.api_key.clone(),
            collection: self.collection.clone(),
            dimension: self.dimension,
        }
    }
}

impl QdrantConfig {
    pub fn new(address: String, api_key: String, collection: String, dimension: u64) -> (c: Self)
        ensures
            c@ == (QdrantConfigView {
                address: address@,
                api_key: api_key@,
                collection: collection@,
                dimension,
            }),
    {
        QdrantConfig { address, api_key, collection, dimension }
    }

    pub fn address(&self) -> (r: &String)
        ensures
            r@ == self@.address,
    {
        &self.address
    }

    pub fn api_key(&self) -> (r: &String)
        ensures
            r@ == self@.api_key,
    {
        &self.api_key
    }

    pub fn collection(&self) -> (r: &String)
        ensures
            r@ == self@.collection,
    {
        &self.collection
    }

    pub fn dimension(&self) -> (r: u64)
        ensures
            r == self@.dimension,
    {
        self.dimension
    }
}

/// The id of a point in the vector store.
#[derive(Debug)]
pub enum PointId {
    Num(u64),
    Uuid(String),
}

/// A search hit of the vector store: the point's id, its score, and the
/// `content` and `title` of its payload where they are strings.
#[derive(Debug)]
pub struct ScoredPointData {
    pub id: Option<PointId>,
    /// Bit pattern of the `f32` score.
    pub score: u32,
    pub content: Option<String>,
    pub title: Option<String>,
}

/// The text of a point id: a number in decimal, a UUID as it is, and no
/// text without an id.
pub open spec fn point_id_text(id: Option<PointId>) -> Seq<char> {
    match id {
        Some(PointId::Num(n)) => decimal(n as nat),
        Some(PointId::Uuid(u)) => u@,
        None => Seq::empty(),
    }
}

/// A string of the payload, or no text without one.
pub open spec fn payload_text(value: Option<String>) -> Seq<char> {
    match value {
        Some(s) => s@,
        None => Seq::empty(),
    }
}

fn text_or_default(value: Option<String>) -> (r: String)
    ensures
        r@ == payload_text(value),
{
    match value {
        Some(s) => s,
        None => String::new(),
    }
}

impl SearchResult {
    /// The search result of a hit: its id as text, its score, and its
    /// payload's `title` and `content`, each empty where absent.
    pub fn from_point(point: ScoredPointData) -> (r: SearchResult)
        ensures
            r.id@ == point_id_text(point.id),
            r.score == point.score,
            r.title@ == payload_text(point.title),
            r.payload@ == payload_text(point.content),
    {
        let ScoredPointData { id, score, content, title } = point;
        let id_text = match id {
            Some(PointId::Num(n)) => decimal_string(n),
            Some(PointId::Uuid(u)) => u,
            None => String::new(),
        };
        SearchResult {
            id: id_text,
            score,
            title: text_or_default(title),
            payload: text_or_default(content),
        }
    }
}

} // verus!
