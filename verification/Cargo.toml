[package]
name = "pharaoh"
version = "0.1.0"
edition = "2021"
publish = false

[dependencies]
similar = "*"
serde = { version = "*", features = ["derive"] }
serde_yaml = "*"
globwalk = "*"
anyhow = "*"
clap = "*"
