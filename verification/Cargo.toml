[package]
name = "agenix"
version = "0.1.0"
edition = "2021"
publish = false

[dependencies]
anyhow = "1"
clap = { version = "4", features = ["derive", "env"] }
isatty = "0.1"
serde_json = "1"
tempfile = "3"
