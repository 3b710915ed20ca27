[package]
name = "agentx"
version = "0.1.0"
edition = "2021"
publish = false

[dependencies]
url = "=2.5.8"
http = "=1.5.0"
serde = { version = "=1.0.229", features = ["derive"] }
serde_json = "=1.0.154"
tokio = { version = "=1.54.1", features = ["rt-multi-thread", "macros", "net", "fs", "time", "io-util"] }
clap = { version = "=4.6.7", features = ["derive"] }
anyhow = "=1.0.104"
dotenvy = "=0.15.7"
tempfile = "=3.27.0"
tracing = "=0.1.44"
tracing-subscriber = { version = "=0.3.23", features = ["env-filter", "fmt"] }
reqwest = { version = "=0.12.28", default-features = false, features = ["json"] }
tokio-tungstenite = { version = "=0.30.0", default-features = false, features = ["connect"] }
futures-util = "=0.3.34"
