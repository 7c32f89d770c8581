[package]
name = "codex_logic"
version = "0.1.0"
edition = "2021"
publish = false

[dependencies]
shlex = "1"
sha1 = "0.10"
serde_json = "1"
serde = { version = "1", features = ["derive"] }
walkdir = "2"
