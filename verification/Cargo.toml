[package]
name = "rattler_sandbox"
version = "0.1.0"
edition = "2021"
publish = false

[dependencies]
anyhow = "1"
thiserror = "2"
serde = { version = "1", features = ["derive"] }
serde_json = "1"
dunce = "1"
seccompiler = "*"
landlock = "*"
