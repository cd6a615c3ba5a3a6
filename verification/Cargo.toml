[package]
name = "openai_api_rs"
version = "0.1.0"
edition = "2021"
publish = false

[dependencies]
anyhow = "1"
base64 = "0.21"
eventsource-stream = "0.2"
futures = "0.3"
futures-util = "0.3"
minreq = { version = "2", features = ["json-using-serde"] }
reqwest = { version = "0.11", default-features = false, features = ["json", "stream"] }
serde = { version = "1", features = ["derive"] }
serde_json = "1"
tokio = { version = "1", features = ["macros", "rt-multi-thread", "net"] }
tokio-tungstenite = "0.20"
tungstenite = "0.20"
url = "2"
