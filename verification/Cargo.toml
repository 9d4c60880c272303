[package]
name = "spawn_server"
version = "0.1.0"
edition = "2021"
publish = false

[dependencies]
libc = "0.2"
nix = { version = "0.29", features = ["fs", "process", "signal"] }
serde = { version = "1", features = ["derive"] }
serde_derive = "1"
serde_json = "1"
