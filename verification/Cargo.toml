[package]
name = "daphne_interop"
version = "0.1.0"
edition = "2021"
publish = false

[dependencies]
atty = "0.2"
hex = "0.4"
portpicker = "0.1"
rand = "0.8"
reqwest = { version = "0.11", default-features = false, features = ["json"] }
serde = { version = "1", features = ["derive"] }
serde_json = "1"
testcontainers = "0.14"
thiserror = "1"
tokio = { version = "1", features = ["rt", "rt-multi-thread", "sync", "time", "macros"] }
tracing = "0.1"
tracing-log = "0.1"
tracing-subscriber = { version = "0.3", features = ["env-filter", "fmt", "json", "registry"] }
