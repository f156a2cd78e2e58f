[package]
name = "edcb_mcp"
version = "0.1.0"
edition = "2021"
publish = false

[dependencies]
chrono = "0.4"
encoding_rs = "0.8"
clap = { version = "4", features = ["derive"] }
serde = { version = "1", features = ["derive"] }
serde_json = "1"
thiserror = "2"
tokio = { version = "1", features = ["full"] }
rmcp = { version = "*", features = ["server", "macros", "transport-io"] }
