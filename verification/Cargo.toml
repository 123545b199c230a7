[package]
name = "rillrate"
version = "0.1.0"
edition = "2021"
publish = false

[dependencies]
futures = "0.3"
tokio = { version = "1", features = ["sync"] }
anyhow = "1"
thiserror = "1"
