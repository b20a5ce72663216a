[package]
name = "hyper-mcp-proxy"
version = "0.1.0"
edition = "2021"
publish = false

[dependencies]
anyhow = "=1.0.104"
axum = "=0.8.9"
clap = "=4.6.7"
http = "=1.5.0"
rmcp = { version = "=2.2.0", features = ["client", "elicitation", "server", "transport-child-process", "transport-streamable-http-server"] }
tokio = { version = "1", features = ["full"] }
tokio-util = "0.7"
tracing = "0.1"
tracing-subscriber = { version = "0.3", features = ["env-filter", "json"] }
