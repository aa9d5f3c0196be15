[package]
name = "keen"
version = "0.1.0"
edition = "2021"
publish = false

[dependencies]
anyhow = "1"
clap = { version = "4", features = ["derive"] }
colored = "2"
notify = "6"
serde_json = "1"
tempfile = "3"
tokio = { version = "1", features = ["full"] }
walkdir = "2"
