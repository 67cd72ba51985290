[package]
name = "truelayer-rust"
version = "0.1.0"
edition = "2021"
publish = false

[dependencies]
anyhow = "=1.0.104"
async-trait = "=0.1.92"
chrono = { version = "=0.4.45", features = ["serde"] }
reqwest = { version = "=0.11.27", features = ["json"] }
reqwest-middleware = "=0.1.6"
reqwest-retry = "=0.1.5"
retry-policies = "=0.1.2"
secrecy = "=0.8.0"
serde = { version = "=1.0.229", features = ["derive"] }
serde_json = "=1.0.154"
task-local-extensions = "=0.1.4"
thiserror = "=1.0.69"
tokio = { version = "=1.54.1", features = ["macros", "rt", "sync", "time"] }
truelayer-signing = "=0.3.1"
urlencoding = "=2.1.3"
uuid = { version = "=1.29.0", features = ["v4"] }

[dev-dependencies]
openssl = "=0.10.81"
