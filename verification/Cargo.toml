[package]
name = "cacherch"
version = "0.1.0"
edition = "2021"
publish = false

[dependencies]
tantivy = "0.22"
serde_json = "1"
console = "0.15"
serde = { version = "1", features = ["derive"] }
clap = { version = "4", features = ["derive"] }
redis = { version = "0.27", features = ["tokio-comp"] }
tokio = { version = "1", features = ["rt-multi-thread", "macros"] }
pdf-extract = "*"
thiserror = "1"

[dev-dependencies]
tempfile = "3"
