[package]
name = "search_sync"
version = "0.1.0"
edition = "2021"
publish = false

[dependencies]
axum = "*"
deadpool-postgres = "*"
futures = "*"
meilisearch-sdk = "*"
serde = { version = "*", features = ["derive"] }
tokio = { version = "*", features = ["macros", "rt-multi-thread", "net"] }
tokio-postgres = "*"
