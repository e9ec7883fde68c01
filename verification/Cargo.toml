[package]
name = "pbrq"
version = "0.1.0"
edition = "2021"
publish = false

[dependencies]
async-recursion = "=1.2.0"
axum = "=0.5.17"
base64 = "=0.13.1"
bytes = "=1.12.1"
cached = { version = "=0.34.1", default-features = false }
chrono = "=0.4.45"
clap = { version = "=3.2.25", features = ["derive"] }
dashmap = "=5.5.3"
futures = "=0.3.34"
lazy_static = "=1.5.1"
md5 = "=0.7.0"
prost = "=0.9.0"
rand = "=0.8.8"
reqwest = { version = "=0.11.27", default-features = false }
ricq = "=0.1.19"
ricq-core = "=0.1.19"
serde = { version = "=1.0.229", features = ["derive"] }
serde_json = "=1.0.154"
thiserror = "=1.0.69"
time = { version = "=0.3.55", features = ["macros"] }
tokio = { version = "=1.54.1", features = ["full"] }
tokio-tungstenite = "=0.17.2"
tower-http = { version = "=0.3.5", features = ["fs", "auth", "cors"] }
tracing = "=0.1.44"
tracing-subscriber = { version = "=0.3.23", features = ["fmt", "local-time", "time"] }
xml-rs = "=0.8.29"
