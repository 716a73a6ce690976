[package]
name = "git_spawn"
version = "0.1.0"
edition = "2021"
publish = false

[dependencies]
async-trait = "0.1"
serde = { version = "1", features = ["derive"] }
thiserror = "*"
tokio = { version = "1", features = ["process", "fs", "io-util", "time", "rt", "macros"] }
