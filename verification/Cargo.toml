[package]
name = "ytextract"
version = "0.11.0"
edition = "2021"
publish = false

[dependencies]
async-stream = "0.3"
base64 = "0.13"
bytes = "1"
chrono = { version = "0.4", default-features = false, features = ["std"] }
futures-core = "0.3"
lazy-regex = "2"
log = "0.4"
once_cell = "1"
regex = "1"
reqwest = { version = "0.11", default-features = false, features = ["json", "rustls-tls"] }
serde = { version = "1", features = ["derive"] }
serde_json = "1"
serde_urlencoded = "0.7"
serde_with = "1"
thiserror = "1"
tokio = { version = "1", features = ["rt", "macros"] }
tokio-stream = "0.1"
