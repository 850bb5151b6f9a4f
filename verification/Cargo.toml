[package]
name = "dig"
version = "0.1.0"
edition = "2021"
publish = false

[dependencies]
serde_json = "1"
indexmap = { version = "2", features = ["serde"] }
serde = { version = "1", features = ["derive"] }
serde_yaml = "0.9"
anyhow = "1"
clap = { version = "4", features = ["derive"] }
colored = "2"
futures = "0.3"
smol = "2"
async-process = "2"
async-recursion = "1"
