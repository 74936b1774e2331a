[package]
name = "cargo_sim"
version = "0.1.0"
edition = "2021"
publish = false

[dependencies]
rand = "0.8"
chrono = { version = "0.4", features = ["serde"] }
serde = { version = "1", features = ["derive"] }
serde_json = "1"
serde_yaml = "0.9"
clap = { version = "4", features = ["derive"] }
hyper = { version = "0.14", features = ["client", "http1", "tcp"] }
tokio = { version = "1", features = ["macros", "rt-multi-thread", "time"] }
