[package]
name = "axonflow-sdk-rust"
version = "0.11.0"
edition = "2021"
publish = false

[dependencies]
async-trait = "0.1"
base64 = "0.22"
chrono = { version = "0.4", default-features = false, features = ["std", "clock"] }
home = "0.5"
moka = { version = "0.12", features = ["future"] }
percent-encoding = "2"
reqwest = { version = "0.12", default-features = false, features = ["json", "rustls-tls"] }
serde = { version = "1", features = ["derive"] }
serde_json = "1"
thiserror = "2"
tokio = { version = "1", features = ["rt-multi-thread", "macros", "time", "fs"] }
tracing = "0.1"
url = "2"
uuid = { version = "1", features = ["v4"] }
