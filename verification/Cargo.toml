[package]
name = "little_ledger"
version = "0.1.0"
edition = "2021"
publish = false

[dependencies]
anyhow = "1"
clap = { version = "4", features = ["derive"] }
csv = "1"
rust_decimal = { version = "1", features = ["serde-with-arbitrary-precision", "serde-with-str"] }
serde = { version = "1", features = ["derive"] }
thiserror = "2"
