[package]
name = "input_sim"
version = "0.1.0"
edition = "2021"
publish = false

[dependencies]
enigo = "0.2"
serde = { version = "1", features = ["derive"] }
tokio = { version = "1", features = ["time", "sync", "rt", "rt-multi-thread", "macros"] }
