[package]
name = "architecture_quantumforge_software"
version = "0.1.0"
edition = "2021"
publish = false

[dependencies]
character_text_splitter = "=0.1.3"
uuid = { version = "=1.29.0", features = ["v4"] }
anyhow = "=1.0.104"
async-trait = "=0.1.92"
axum = "=0.8.9"
axum-tracing-opentelemetry = "*"
futures = "=0.3.34"
openai_dive = { version = "=1.4.3", features = ["stream"] }
qdrant-client = "=1.20.0"
reqwest = { version = "=0.13.5", features = ["json"] }
serde = { version = "=1.0.229", features = ["derive"] }
serde_derive = "=1.0.229"
serde_json = "=1.0.154"
thiserror = "=2.0.21"
tokio = { version = "=1.54.1", features = ["full"] }
tower-http = { version = "=0.7.1", features = ["cors", "trace"] }
tracing = "=0.1.44"
tracing-subscriber = { version = "=0.3.23", features = ["env-filter"] }
utoipa = "=6.0.0"
utoipa-rapidoc = { version = "=7.0.0", features = ["axum"] }
