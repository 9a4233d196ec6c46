[package]
name = "audit_viewer"
version = "0.1.0"
edition = "2021"
publish = false

[dependencies]
crossterm = "0.27"
futures-util = "0.3"
prost = "0.12"
ratatui = "0.26"
serde_json = "1"
tokio = { version = "1", features = ["full"] }
tokio-tungstenite = "0.21"
tracing = "0.1"
tracing-subscriber = "0.3"
