[package]
name = "isograph_schema"
version = "0.1.0"
edition = "2021"
publish = false

[dependencies]
colorize = "0.1"
regex = "1"
serde = { version = "1", features = ["derive"] }
serde_json = "1"
thiserror = "1"
