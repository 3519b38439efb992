[package]
name = "copymaster"
version = "0.1.0"
edition = "2021"
publish = false

[dependencies]
num_cpus = "1"
tokio = { version = "1", features = ["rt", "rt-multi-thread", "macros", "sync", "time"] }
serde = { version = "1", features = ["derive"] }
serde_json = "1"
clap = { version = "4", features = ["derive"] }
dirs = "5"
