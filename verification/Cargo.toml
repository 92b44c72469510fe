[package]
name = "hentry"
version = "0.1.0"
edition = "2021"
publish = false

[dependencies]
anyhow = "1"
clap = "4"

[dev-dependencies]
serde_json = { version = "1", features = ["preserve_order"] }
