[package]
name = "grba_core"
version = "0.1.0"
edition = "2021"
publish = false

[dependencies]
binary-heap-plus = "0.5"
regex = "1"
serde = { version = "1", features = ["derive"] }
clap = { version = "3", features = ["derive"] }
