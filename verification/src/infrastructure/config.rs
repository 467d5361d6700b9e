//! The sections of the service's configuration that name the services it
//! uses.
use vstd::prelude::*;

use crate::infrastructure::httpserver::HttpServerConfig;
use crate::infrastructure::openai::{OpenaiConfig, OpenaiConfigView};
use crate::infrastructure::qdrant::{QdrantConfig, QdrantConfigView};
use crate::infrastructure::sentransformers::BgeConfig;

verus! {

/// The embeddings service section.
#[derive(Debug)]
pub struct TokenizerConfig {
    bge: BgeConfig,
}

impl View for TokenizerConfig {
    type V = Seq<char>;

    closed spec fn view(&self) -> Seq<char> {
        self.bge@
    }
}

impl TokenizerConfig {
    pub fn new(bge: BgeConfig) -> (c: Self)
        ensures
            c@ == bge@,
    {
        TokenizerConfig { bge }
    }

    pub fn bge(&self) -> (r: &BgeConfig)
        ensures
            r@ == self@,
    {
        &self.bge
    }
}

/// The language model section.
#[derive(Debug)]
pub struct LlmConfig {
    openai: OpenaiConfig,
}

impl View for LlmConfig {
    type V = OpenaiConfigView;

    closed spec fn view(&self) -> OpenaiConfigView {
        self.openai@
    }
}

impl LlmConfig {
    pub fn new(openai: OpenaiConfig) -> (c: Self)
        ensures
            c@ == openai@,
    {
        LlmConfig { openai }
    }

    pub fn openai(&self) -> (r: &OpenaiConfig)
        ensures
            r@ == self@,
    {
        &self.openai
    }
}

/// The vector store section.
#[derive(Debug)]
pub struct StorageConfig {
    qdrant: QdrantConfig,
}

impl View for StorageConfig {
    type V = QdrantConfigView;

    closed spec fn view(&self) -> QdrantConfigView {
        self.qdrant@
    }
}

impl StorageConfig {
    pub fn new(qdrant: QdrantConfig) -> (c: Self)
        ensures
            c@ == qdrant@,
    {
        StorageConfig { qdrant }
    }

    pub fn qdrant(&self) -> (r: &QdrantConfig)
        ensures
            r@ == self@,
    {
        &self.qdrant
    }
}

/// The HTTP server section.
#[derive(Debug)]
pub struct ServerConfig {
    http: HttpServerConfig,
}

impl View for ServerConfig {
    type V = Seq<char>;

    closed spec fn view(&self) -> Seq<char> {
        self.http@
    }
}

impl ServerConfig {
    pub fn new(http: HttpServerConfig) -> (c: Self)
        ensures
            c@ == http@,
    {
        ServerConfig { http }
    }

    pub fn http(&self) -> (r: &HttpServerConfig)
        ensures
            r@ == self@,
    {
        &self.http
    }
}

} // verus!
