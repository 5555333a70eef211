[package]
name = "chat-gpt-lib-rs"
version = "0.1.0"
edition = "2021"
publish = false

[dependencies]
futures-util = "0.3"
log = "0.4"
reqwest = { version = "0.12", default-features = false, features = ["json", "stream", "multipart", "blocking", "rustls-tls"] }
serde = { version = "1", features = ["derive"] }
serde_json = "1"
thiserror = "2"
tokio = { version = "1", features = ["fs", "io-util"] }
tokio-stream = { version = "0.1", features = ["io-util"] }
tokio-util = { version = "0.7", features = ["io"] }
