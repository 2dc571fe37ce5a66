[package]
name = "sfsu"
version = "0.1.0"
edition = "2021"
publish = false

[dependencies]
serde = { version = "1", features = ["derive"] }
serde_json = "1"
regex = "1"
clap = { version = "4", features = ["derive"] }
anyhow = "1"
which = "*"
chrono = "0.4"
tokio = { version = "1", features = ["rt-multi-thread", "macros", "process", "time", "io-util"] }
