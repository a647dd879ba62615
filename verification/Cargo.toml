[package]
name = "modal"
version = "0.1.0"
edition = "2021"
publish = false

[dependencies]
toml = "0.8"
tonic = "0.11"
serde = { version = "1", features = ["derive"] }
serde_cbor = "0.11"
anyhow = "1"
thiserror = "1"
tokio = { version = "1", features = ["time", "macros", "rt-multi-thread"] }
reqwest = { version = "0.11", default-features = false, features = ["rustls-tls"] }
