[package]
name = "log_tracing_layer"
version = "0.1.0"
edition = "2021"
publish = false

[dependencies]
async-recursion = "1"
async-trait = "0.1"
chrono = "0.4"
libflate = "2"
reqwest = "0.12"
serde_json = "1"
tokio = { version = "1", features = ["rt", "sync", "time"] }
tracing = "0.1"
tracing-subscriber = "0.3"
