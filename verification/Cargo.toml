[package]
name = "solari"
version = "0.1.0"
edition = "2021"
publish = false

[dependencies]
serde_urlencoded = "0.7"
serde = { version = "1", features = ["derive"] }
serde_json = "1"
reqwest = { version = "0.12", default-features = false, features = ["json"] }
axum = "0.8"
tokio = { version = "1", features = ["net", "rt", "macros"] }
thiserror = "2"
async-trait = "0.1"
tracing = "0.1"
