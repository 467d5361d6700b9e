pub mod config;
pub mod httpserver;
pub mod openai;
pub mod qdrant;
pub mod sentransformers;

pub use config::{LlmConfig, ServerConfig, StorageConfig, TokenizerConfig};
pub use httpserver::HttpServerConfig;
pub use openai::OpenaiConfig;
pub use qdrant::QdrantConfig;
pub use sentransformers::BgeConfig;
