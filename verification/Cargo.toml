[package]
name = "slog-error-chain"
version = "0.1.0"
edition = "2021"
publish = false

[dependencies]
erased-serde = "0.3"
serde = "1"
slog = { version = "=2.7.0", features = ["nested-values"] }

[dev-dependencies]
serde_json = "1"
