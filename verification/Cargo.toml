[package]
name = "crd-api"
version = "0.1.0"
edition = "2021"
publish = false

[dependencies]
chrono = "0.4"
derive_builder = "0.12"
quick-xml = { version = "0.28", features = ["serialize"] }
reqwest = "0.11"
serde = { version = "1", features = ["derive"] }
serde_qs = "0.12"
thiserror = "1"
