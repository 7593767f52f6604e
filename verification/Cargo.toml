[package]
name = "foxhole"
version = "0.1.0"
edition = "2021"
publish = false

[dependencies]
sha2 = "0.11"
serde = { version = "=1.0.229", features = ["derive"] }
serde_json = "=1.0.154"
nix = { version = "=0.29.0", features = ["sched", "process", "user"] }
