[package]
name = "tweet2md"
version = "0.1.0"
edition = "2021"
publish = false

[dependencies]
anyhow = "1"
base64 = "*"
clap = { version = "4", features = ["derive"] }
colored = "*"
dirs = "*"
serde_json = "1"
thiserror = "*"
