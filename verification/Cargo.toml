[package]
name = "table_ingest"
version = "0.1.0"
edition = "2021"
publish = false

[dependencies]
anyhow = "*"
chrono = { version = "*", features = ["serde"] }
csv = "*"
dotenvy = "*"
serde = "*"
serde_derive = "*"
uuid = { version = "*", features = ["serde"] }
