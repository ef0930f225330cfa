[package]
name = "google_cloud_storage"
version = "0.1.0"
edition = "2021"
publish = false

[dependencies]
async-stream = "0.3"
async-trait = "0.1"
base64 = "0.13"
bytes = "1"
chrono = { version = "0.4", default-features = false, features = ["std"] }
futures = "0.3"
percent-encoding = "2"
reqwest = { version = "0.11", default-features = false, features = ["json", "stream"] }
serde = { version = "1", features = ["derive"] }
serde_json = "1"
thiserror = "1"
tracing = "0.1"
url = "2"
